use vstd::prelude::*;

verus! {

/// The abstract state of the favorite-color cell: absent until a color is set.
pub type FavoriteState = Option<Seq<char>>;

/// The state of a freshly created cell.
pub open spec fn initial_state() -> FavoriteState {
    None
}

/// The state after storing `color`: the previous value is replaced.
pub open spec fn set_state(s: FavoriteState, color: Seq<char>) -> FavoriteState {
    Some(color)
}

/// What a read of the cell in state `s` returns.
pub open spec fn get_state(s: FavoriteState) -> FavoriteState {
    s
}

/// The state after storing each color of `colors` in turn.
pub open spec fn set_all(s: FavoriteState, colors: Seq<Seq<char>>) -> FavoriteState
    decreases colors.len(),
{
    if colors.len() == 0 {
        s
    } else {
        set_all(set_state(s, colors[0]), colors.drop_first())
    }
}

/// The view of an optional string.
pub open spec fn opt_view(o: Option<String>) -> FavoriteState {
    match o {
        Some(s) => Some(s@),
        None => None,
    }
}

/// Holds at most one color name; the favorite color of the whole process.
pub struct FavoriteColor {
    color_name: Option<String>,
}

impl View for FavoriteColor {
    type V = FavoriteState;

    closed spec fn view(&self) -> FavoriteState {
        opt_view(self.color_name)
    }
}

impl FavoriteColor {
    /// A cell with no favorite color yet.
    pub fn new() -> (r: Self)
        ensures
            r@ == initial_state(),
    {
        FavoriteColor { color_name: None }
    }

    /// Stores an independent copy of `color`, replacing any earlier value.
    pub fn set(&mut self, color: &str)
        ensures
            final(self)@ == set_state(old(self)@, color@),
    {
        self.color_name = Some(color.to_string());
    }

    /// The stored color, or `None` when none was set.
    pub fn get(&self) -> (r: Option<String>)
        ensures
            opt_view(r) == get_state(self@),
    {
        self.color_name.clone()
    }
}

/// A read right after storing `color` returns `color`, whatever was there before.
pub proof fn lemma_get_after_set(s: FavoriteState, color: Seq<char>)
    ensures
        get_state(set_state(s, color)) == Some(color),
{
}

/// Before any color is stored, a read returns nothing.
pub proof fn lemma_get_initial()
    ensures
        get_state(initial_state()) == None::<Seq<char>>,
{
}

/// Storing `c1` and then `c2` leaves `c2` alone: the last write wins.
pub proof fn lemma_last_write_wins(s: FavoriteState, c1: Seq<char>, c2: Seq<char>)
    ensures
        set_state(set_state(s, c1), c2) == set_state(s, c2),
        get_state(set_state(set_state(s, c1), c2)) == Some(c2),
{
}

/// However a series of writes is ordered, the cell ends up holding exactly one
/// of the written colors, never a mixture: the last one in that order.
pub proof fn lemma_writes_never_mix(s: FavoriteState, colors: Seq<Seq<char>>)
    requires
        colors.len() > 0,
    ensures
        set_all(s, colors) == Some(colors.last()),
        exists|i: int| 0 <= i < colors.len() && set_all(s, colors) == Some(#[trigger] colors[i]),
    decreases colors.len(),
{
    let rest = colors.drop_first();
    if colors.len() > 1 {
        lemma_writes_never_mix(set_state(s, colors[0]), rest);
        assert(rest.last() == colors.last());
    } else {
        assert(set_all(set_state(s, colors[0]), rest) == set_state(s, colors[0]));
    }
    assert(set_all(s, colors) == Some(colors[colors.len() - 1]));
}

} // verus!
