//! Rules of selector parsing and matching: which pseudo-classes and
//! pseudo-elements a stylesheet may use, and which headings a `:heading()`
//! selector matches.

use selectors::parser::AnPlusB;
use thin_vec::ThinVec;
use vstd::prelude::*;

verus! {

/// `selectors::parser::AnPlusB`: the two numbers of an `An+B` expression.
/// Nothing is known of a value but through the functions below.
#[verifier::external_type_specification]
#[verifier::external_body]
pub struct ExAnPlusB(selectors::parser::AnPlusB);

/// `thin_vec::ThinVec`: a vector behind a thin pointer. Nothing is known of
/// a value but through the functions below.
#[verifier::external_type_specification]
#[verifier::external_body]
#[verifier::reject_recursive_types(T)]
pub struct ExThinVec<T>(thin_vec::ThinVec<T>);

/// The `An+B` expressions that a list holds, in their order, each as the
/// pair of `A` and `B`.
pub uninterp spec fn levels_of(list: ThinVec<AnPlusB>) -> Seq<(i32, i32)>;

/// `ThinVec::is_empty`: whether the list holds nothing.
#[verifier::external_body]
fn levels_is_empty(list: &ThinVec<AnPlusB>) -> (r: bool)
    ensures
        r == (levels_of(*list).len() == 0),
{
    list.is_empty()
}

/// `ThinVec::len`: the number of expressions in the list.
#[verifier::external_body]
fn levels_len(list: &ThinVec<AnPlusB>) -> (r: usize)
    ensures
        r == levels_of(*list).len(),
{
    list.len()
}

/// The expression at place `index` of the list, read through `ThinVec`'s
/// `Deref` to a slice, as the pair of its `A` and its `B`.
#[verifier::external_body]
fn level_at(list: &ThinVec<AnPlusB>, index: usize) -> (r: (i32, i32))
    requires
        index < levels_of(*list).len(),
    ensures
        r == levels_of(*list)[index as int],
{
    let anb = &list[index];
    (anb.0, anb.1)
}

/// Whether there is a number `n`, not negative, with `a * n + b == i`, as
/// far as 32 bits can tell: where `i - b` does not fit in an `i32`, or is
/// the least `i32` while `a` is minus one, the answer is no.
pub open spec fn an_plus_b_matches(a: i32, b: i32, i: i32) -> bool {
    let an = i - b;
    if an < i32::MIN || an > i32::MAX {
        false
    } else if a == 0 {
        an == 0
    } else if an == i32::MIN && a == -1 {
        false
    } else {
        an % (a as int) == 0 && an / (a as int) >= 0
    }
}

/// `AnPlusB::matches_index` of the expression with these `a` and `b`:
/// whether the index `i` is one of `a * n + b` for `n` from zero on.
#[verifier::external_body]
fn matches_index(a: i32, b: i32, i: i32) -> (r: bool)
    ensures
        r == an_plus_b_matches(a, b, i),
{
    AnPlusB(a, b).matches_index(i)
}

/// The state of an element, one bit for each thing that can hold of it;
/// four of the bits hold the level of a heading.
#[derive(Clone, Copy, Debug, PartialEq, Eq, Structural)]
pub struct ElementState {
    pub bits: u64,
}

impl ElementState {
    /// The bit from which on the state holds the level of a heading.
    pub const HEADING_LEVEL_OFFSET: u64 = 57;

    /// The bits that hold the level of a heading; none of them is set for
    /// an element that is no heading.
    pub const HEADING_LEVEL_BITS: u64 = 0x1E00_0000_0000_0000;

    /// The level of the heading, from one to fifteen; zero for an element
    /// that is no heading.
    pub open spec fn heading_level(self) -> int {
        ((self.bits & ElementState::HEADING_LEVEL_BITS) >> ElementState::HEADING_LEVEL_OFFSET) as int
    }
}

/// The levels that a `:heading()` selector names, each as an `An+B`
/// expression; `:heading` alone names none and means any.
pub struct HeadingSelectorData(pub ThinVec<AnPlusB>);

/// Whether a selector with these levels matches an element in this state:
/// the element is a heading, and the selector names no level or one of its
/// expressions gives the level of the heading.
pub open spec fn heading_matches(levels: Seq<(i32, i32)>, state: ElementState) -> bool {
    &&& state.bits & ElementState::HEADING_LEVEL_BITS != 0
    &&& (levels.len() == 0 || exists|k: int|
        0 <= k < levels.len() && #[trigger] an_plus_b_matches(
            levels[k].0,
            levels[k].1,
            state.heading_level() as i32,
        ))
}

impl HeadingSelectorData {
    /// Matches the heading level from the given state against the list of
    /// heading level selectors.
    pub fn matches_state(&self, state: ElementState) -> (r: bool)
        ensures
            r == heading_matches(levels_of(self.0), state),
    {
        let all: u64 = state.bits;
        let bits: u64 = all & ElementState::HEADING_LEVEL_BITS;
        // Without a level in the state, the element is no heading.
        if bits == 0 {
            return false;
        }
        // `:heading` gives no levels: it matches any heading.
        if levels_is_empty(&self.0) {
            return true;
        }
        assert((all & 0x1E00_0000_0000_0000u64) >> 57u64 < 16u64) by (bit_vector);
        let level: i32 = (bits >> ElementState::HEADING_LEVEL_OFFSET) as i32;
        let count = levels_len(&self.0);
        let mut k: usize = 0;
        while k < count
            invariant
                k <= count,
                count == levels_of(self.0).len(),
                level == state.heading_level(),
                state.bits & ElementState::HEADING_LEVEL_BITS != 0,
                forall|j: int|
                    0 <= j < k ==> !#[trigger] an_plus_b_matches(
                        levels_of(self.0)[j].0,
                        levels_of(self.0)[j].1,
                        level,
                    ),
            decreases count - k,
        {
            let (a, b) = level_at(&self.0, k);
            if matches_index(a, b, level) {
                assert(an_plus_b_matches(
                    levels_of(self.0)[k as int].0,
                    levels_of(self.0)[k as int].1,
                    state.heading_level() as i32,
                ));
                return true;
            }
            k += 1;
        }
        false
    }
}

/// Where a pseudo-class is enabled beside content sheets, one bit each.
#[derive(Clone, Copy, Debug, PartialEq, Eq, Structural)]
pub struct NonTSPseudoClassFlag {
    pub bits: u8,
}

impl NonTSPseudoClassFlag {
    /// Enabled in the sheets of the user agent.
    pub const PSEUDO_CLASS_ENABLED_IN_UA_SHEETS: u8 = 1;

    /// Enabled in chrome sheets.
    pub const PSEUDO_CLASS_ENABLED_IN_CHROME: u8 = 2;

    /// Enabled in the sheets of the user agent and in chrome sheets.
    pub const PSEUDO_CLASS_ENABLED_IN_UA_SHEETS_AND_CHROME: u8 = 3;

    /// Whether the two sets have a flag in common.
    pub open spec fn meets(self, flags: u8) -> bool {
        self.bits & flags != 0
    }

    /// Whether the two sets have a flag in common.
    pub fn intersects(self, flags: u8) -> (r: bool)
        ensures
            r == self.meets(flags),
    {
        self.bits & flags != 0
    }
}

/// The kind of stylesheet that a selector is parsed for.
#[derive(Clone, Copy, Debug, PartialEq, Eq, Structural)]
pub struct SheetContext {
    /// The sheet belongs to the user agent.
    pub in_user_agent_stylesheet: bool,
    /// The sheet may use what is reserved for chrome.
    pub chrome_rules_enabled: bool,
}

/// Where a pseudo-element is enabled.
#[derive(Clone, Copy, Debug, PartialEq, Eq, Structural)]
pub struct PseudoElementEnabling {
    pub in_content: bool,
    pub in_ua_sheets: bool,
    pub in_chrome: bool,
}

/// What the enabling of a pseudo-class depends on: where its flags enable
/// it, and whether it is one of the three that a preference governs.
#[derive(Clone, Copy, Debug, PartialEq, Eq, Structural)]
pub struct PseudoClassEnabling {
    pub flags: NonTSPseudoClassFlag,
    pub is_active_view_transition: bool,
    pub is_heading: bool,
    pub is_moz_broken: bool,
}

/// The preferences that govern pseudo-classes.
#[derive(Clone, Copy, Debug, PartialEq, Eq, Structural)]
pub struct PseudoClassPrefs {
    pub view_transitions_enabled: bool,
    pub heading_selector_enabled: bool,
    pub moz_broken_content_enabled: bool,
}

/// Whether content sheets may use the pseudo-class: the two that a
/// preference switches on follow it, any other is enabled unless its flags
/// reserve it for the user agent or for chrome.
pub open spec fn enabled_in_content(class: PseudoClassEnabling, prefs: PseudoClassPrefs) -> bool {
    if class.is_active_view_transition {
        prefs.view_transitions_enabled
    } else if class.is_heading {
        prefs.heading_selector_enabled
    } else {
        !class.flags.meets(NonTSPseudoClassFlag::PSEUDO_CLASS_ENABLED_IN_UA_SHEETS_AND_CHROME)
    }
}

/// Returns whether the pseudo-class is enabled in content sheets.
pub fn is_enabled_in_content(class: PseudoClassEnabling, prefs: PseudoClassPrefs) -> (r: bool)
    ensures
        r == enabled_in_content(class, prefs),
{
    if class.is_active_view_transition {
        return prefs.view_transitions_enabled;
    }
    if class.is_heading {
        return prefs.heading_selector_enabled;
    }
    !class.flags.intersects(NonTSPseudoClassFlag::PSEUDO_CLASS_ENABLED_IN_UA_SHEETS_AND_CHROME)
}

/// Whether a sheet of this kind may use the pseudo-class.
pub open spec fn pseudo_class_enabled(
    context: SheetContext,
    class: PseudoClassEnabling,
    prefs: PseudoClassPrefs,
) -> bool {
    ||| enabled_in_content(class, prefs)
    ||| context.in_user_agent_stylesheet && class.flags.meets(
        NonTSPseudoClassFlag::PSEUDO_CLASS_ENABLED_IN_UA_SHEETS,
    )
    ||| context.chrome_rules_enabled && class.flags.meets(
        NonTSPseudoClassFlag::PSEUDO_CLASS_ENABLED_IN_CHROME,
    )
    ||| class.is_moz_broken && prefs.moz_broken_content_enabled
}

/// Returns whether a sheet of this kind may use the pseudo-class: content
/// may, or the sheet is one that the flags of the class enable it for, or
/// the class is `:-moz-broken` and content is let use it.
pub fn is_pseudo_class_enabled(
    context: SheetContext,
    class: PseudoClassEnabling,
    prefs: PseudoClassPrefs,
) -> (r: bool)
    ensures
        r == pseudo_class_enabled(context, class, prefs),
{
    if is_enabled_in_content(class, prefs) {
        return true;
    }
    if context.in_user_agent_stylesheet && class.flags.intersects(
        NonTSPseudoClassFlag::PSEUDO_CLASS_ENABLED_IN_UA_SHEETS,
    ) {
        return true;
    }
    if context.chrome_rules_enabled && class.flags.intersects(
        NonTSPseudoClassFlag::PSEUDO_CLASS_ENABLED_IN_CHROME,
    ) {
        return true;
    }
    if class.is_moz_broken {
        return prefs.moz_broken_content_enabled;
    }
    return false;
}

/// Returns whether a sheet of this kind may use the pseudo-element:
/// content may, or the sheet is one that the pseudo-element is enabled for.
pub fn is_pseudo_element_enabled(context: SheetContext, pseudo_element: PseudoElementEnabling) -> (r:
    bool)
    ensures
        r == (pseudo_element.in_content || (context.in_user_agent_stylesheet
            && pseudo_element.in_ua_sheets) || (context.chrome_rules_enabled
            && pseudo_element.in_chrome)),
{
    if pseudo_element.in_content {
        return true;
    }
    if context.in_user_agent_stylesheet && pseudo_element.in_ua_sheets {
        return true;
    }
    if context.chrome_rules_enabled && pseudo_element.in_chrome {
        return true;
    }
    return false;
}

/// The type used to store the state argument to the `:state` pseudo-class.
#[derive(Clone, Debug, PartialEq, Eq)]
pub struct CustomState(pub String);

/// The dummy struct we use to implement our selector parsing.
#[derive(Clone, Copy, Debug, PartialEq, Eq)]
pub struct SelectorImpl;

} // verus!
