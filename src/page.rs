use vstd::prelude::*;
use vstd::string::StringExecFns;

use crate::favorite::{get_state, initial_state, set_state, FavoriteColor};

verus! {

/// The named values handed to a template, in order; each name occurs once.
pub type TemplateContext = Seq<(Seq<char>, Seq<char>)>;

/// The view of a list of string pairs.
pub open spec fn pairs_view(v: Seq<(String, String)>) -> TemplateContext {
    v.map_values(|p: (String, String)| (p.0@, p.1@))
}

/// The index template, with no values.
pub open spec fn index_view() -> (Seq<char>, TemplateContext) {
    ("index"@, seq![])
}

/// The color-block template, with `color` bound to the given text verbatim.
pub open spec fn color_block_view(color: Seq<char>) -> (Seq<char>, TemplateContext) {
    ("color_block"@, seq![("color"@, color)])
}

/// The message template, with `message` bound to the given text.
pub open spec fn message_view(message: Seq<char>) -> (Seq<char>, TemplateContext) {
    ("message"@, seq![("message"@, message)])
}

/// The confirmation shown after storing `color`.
pub open spec fn set_message(color: Seq<char>) -> Seq<char> {
    "Favorite color set to "@ + color
}

/// The text shown when no favorite color has been stored.
pub open spec fn not_set_message() -> Seq<char> {
    "Favorite color not set yet."@
}

/// What the favorite-color read route renders in state `s`.
pub open spec fn favorite_view(s: Option<Seq<char>>) -> (Seq<char>, TemplateContext) {
    match get_state(s) {
        Some(c) => color_block_view(c),
        None => message_view(not_set_message()),
    }
}

/// A render call: which template a route renders, and with which values.
pub enum Page {
    Index,
    ColorBlock { color: String },
    Message { message: String },
}

impl View for Page {
    type V = (Seq<char>, TemplateContext);

    open spec fn view(&self) -> (Seq<char>, TemplateContext) {
        match self {
            Page::Index => index_view(),
            Page::ColorBlock { color } => color_block_view(color@),
            Page::Message { message } => message_view(message@),
        }
    }
}

impl Page {
    /// The identifier of the template to render.
    pub fn template_name(&self) -> (r: &'static str)
        ensures
            r@ == self@.0,
    {
        proof {
            reveal_strlit("index");
            reveal_strlit("color_block");
            reveal_strlit("message");
        }
        match self {
            Page::Index => "index",
            Page::ColorBlock { .. } => "color_block",
            Page::Message { .. } => "message",
        }
    }

    /// The named values to hand to the template.
    pub fn context(&self) -> (r: Vec<(String, String)>)
        ensures
            pairs_view(r@) == self@.1,
    {
        let mut r: Vec<(String, String)> = Vec::new();
        match self {
            Page::Index => {},
            Page::ColorBlock { color } => {
                r.push((String::from_str("color"), color.clone()));
            },
            Page::Message { message } => {
                r.push((String::from_str("message"), message.clone()));
            },
        }
        assert(pairs_view(r@) =~= self@.1);
        r
    }
}

/// The index route: the index template with no values.
pub fn index() -> (r: Page)
    ensures
        r@ == index_view(),
{
    Page::Index
}

/// The color route: the color-block template with the path segment as the color.
pub fn color_block(color: &str) -> (r: Page)
    ensures
        r@ == color_block_view(color@),
{
    Page::ColorBlock { color: String::from_str(color) }
}

/// The route that stores a favorite color and confirms it.
pub fn set_favorite_color(color: &str, favorite: &mut FavoriteColor) -> (r: Page)
    ensures
        final(favorite)@ == set_state(old(favorite)@, color@),
        r@ == message_view(set_message(color@)),
{
    favorite.set(color);
    let mut message = String::from_str("Favorite color set to ");
    message.append(color);
    Page::Message { message }
}

/// The route that shows the favorite color, or says that none is set.
pub fn get_favorite_color(favorite: &FavoriteColor) -> (r: Page)
    ensures
        r@ == favorite_view(favorite@),
{
    match favorite.get() {
        Some(color) => Page::ColorBlock { color },
        None => Page::Message { message: String::from_str("Favorite color not set yet.") },
    }
}

/// Rendering the color route for any text `x` hands `x` itself, unchanged, to
/// the color-block template as its one value, named `color`; different texts
/// give different render calls.
pub proof fn lemma_color_passed_verbatim(x: Seq<char>)
    ensures
        color_block_view(x).0 == "color_block"@,
        color_block_view(x).1.len() == 1,
        color_block_view(x).1[0] == ("color"@, x),
        forall|y: Seq<char>| #[trigger] color_block_view(y) == color_block_view(x) ==> y == x,
{
    assert forall|y: Seq<char>| #[trigger] color_block_view(y) == color_block_view(x) implies y == x by {
        assert(color_block_view(y).1[0].1 == color_block_view(x).1[0].1);
    }
}

/// After the store route is given `color`, the read route shows the color block
/// of `color`, whatever the cell held before.
pub proof fn lemma_read_route_after_store(s: Option<Seq<char>>, color: Seq<char>)
    ensures
        favorite_view(set_state(s, color)) == color_block_view(color),
{
}

/// On a fresh cell the read route shows the not-set message.
pub proof fn lemma_read_route_initial()
    ensures
        favorite_view(initial_state()) == message_view(not_set_message()),
{
}

} // verus!
