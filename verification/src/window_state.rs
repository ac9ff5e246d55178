//! Sets of window attributes, and the set that is saved and restored.

use vstd::prelude::*;

verus! {

/// One part of a window's state that can be saved when the window closes and
/// put back when it opens again.
#[derive(Clone, Copy, Debug, PartialEq, Eq, Structural)]
pub enum WindowAttribute {
    /// The window's size.
    Size,
    /// The window's position on the screen.
    Position,
    /// Whether the window is maximized.
    Maximized,
    /// Whether the window is shown.
    Visible,
    /// Whether the window has a title bar and borders.
    Decorations,
    /// Whether the window fills the screen.
    Fullscreen,
}

impl WindowAttribute {
    /// The bit that stands for the attribute in the bits of a flag set.
    pub open spec fn mask(self) -> u32 {
        match self {
            WindowAttribute::Size => 0x01,
            WindowAttribute::Position => 0x02,
            WindowAttribute::Maximized => 0x04,
            WindowAttribute::Visible => 0x08,
            WindowAttribute::Decorations => 0x10,
            WindowAttribute::Fullscreen => 0x20,
        }
    }

    /// The bit that stands for the attribute in the bits of a flag set.
    pub fn bit(self) -> (bit: u32)
        ensures
            bit == self.mask(),
    {
        match self {
            WindowAttribute::Size => 0x01,
            WindowAttribute::Position => 0x02,
            WindowAttribute::Maximized => 0x04,
            WindowAttribute::Visible => 0x08,
            WindowAttribute::Decorations => 0x10,
            WindowAttribute::Fullscreen => 0x20,
        }
    }
}

/// What an attribute adds to the bits of a set: its bit where the set holds it,
/// nothing where it does not.
pub open spec fn weight(attributes: Set<WindowAttribute>, attribute: WindowAttribute) -> int {
    if attributes.contains(attribute) {
        attribute.mask() as int
    } else {
        0
    }
}

/// The bits that stand for a set of attributes: the sum of its members' bits.
pub open spec fn mask_of(attributes: Set<WindowAttribute>) -> int {
    weight(attributes, WindowAttribute::Size) + weight(attributes, WindowAttribute::Position)
        + weight(attributes, WindowAttribute::Maximized) + weight(
        attributes,
        WindowAttribute::Visible,
    ) + weight(attributes, WindowAttribute::Decorations) + weight(
        attributes,
        WindowAttribute::Fullscreen,
    )
}

/// The bits of all six attributes together.
const ALL_BITS: u32 = 0x3f;

/// A set of window attributes, kept as one bit for each attribute.
///
/// The view of a flag set is the mathematical set of its attributes. Two flag
/// sets are equal exactly when they hold the same attributes.
#[derive(Clone, Copy, Debug, PartialEq, Eq, Structural)]
pub struct StateFlags {
    bits: u32,
}

impl View for StateFlags {
    type V = Set<WindowAttribute>;

    closed spec fn view(&self) -> Set<WindowAttribute> {
        Set::new(|attribute: WindowAttribute| self.bits & attribute.mask() != 0)
    }
}

/// Of two words and the bit of one attribute: how `|` and `& !` act on that
/// bit, and that the word of all six bits holds it.
proof fn lemma_bit_algebra(x: u32, y: u32, m: u32)
    by (bit_vector)
    requires
        m == 0x01 || m == 0x02 || m == 0x04 || m == 0x08 || m == 0x10 || m == 0x20,
    ensures
        ((x | y) & m != 0) == (x & m != 0 || y & m != 0),
        ((x & !y) & m != 0) == (x & m != 0 && y & m == 0),
        0x3fu32 & m != 0,
{
}

/// A word below 64 is the sum of those of the six bits that are set in it.
proof fn lemma_bits_are_sum(x: u32)
    by (bit_vector)
    requires
        x <= 0x3f,
    ensures
        x == (if x & 0x01 != 0 { 0x01u32 } else { 0u32 }) + (if x & 0x02 != 0 { 0x02u32 } else { 0u32 })
            + (if x & 0x04 != 0 { 0x04u32 } else { 0u32 }) + (if x & 0x08 != 0 { 0x08u32 } else { 0u32 })
            + (if x & 0x10 != 0 { 0x10u32 } else { 0u32 }) + (if x & 0x20 != 0 { 0x20u32 } else { 0u32 }),
{
}

impl StateFlags {
    /// No bit is set but those of the six attributes.
    #[verifier::type_invariant]
    pub closed spec fn wf(self) -> bool {
        self.bits <= ALL_BITS
    }

    /// The set of every attribute.
    pub fn all() -> (flags: StateFlags)
        ensures
            flags.wf(),
            flags@ == Set::<WindowAttribute>::full(),
    {
        let flags = StateFlags { bits: ALL_BITS };
        proof {
            assert forall|attribute: WindowAttribute| flags@.contains(attribute) by {
                lemma_bit_algebra(0, 0, attribute.mask());
            }
            assert(flags@ =~= Set::<WindowAttribute>::full());
        }
        flags
    }

    /// The set that holds one attribute and no other.
    pub fn of(attribute: WindowAttribute) -> (flags: StateFlags)
        ensures
            flags.wf(),
            flags@ == set![attribute],
    {
        let flags = StateFlags { bits: attribute.bit() };
        proof {
            assert forall|other: WindowAttribute| flags@.contains(other) == (other == attribute) by {
                let m: u32 = attribute.mask();
                let n: u32 = other.mask();
                assert((m & n != 0) == (m == n)) by (bit_vector)
                    requires
                        m == 0x01 || m == 0x02 || m == 0x04 || m == 0x08 || m == 0x10 || m == 0x20,
                        n == 0x01 || n == 0x02 || n == 0x04 || n == 0x08 || n == 0x10 || n == 0x20,
                ;
            }
            assert(flags@ =~= set![attribute]);
        }
        flags
    }

    /// The attributes of either set.
    pub fn union(self, other: StateFlags) -> (flags: StateFlags)
        ensures
            flags.wf(),
            flags@ == self@.union(other@),
    {
        proof {
            use_type_invariant(&self);
            use_type_invariant(&other);
            let x: u32 = self.bits;
            let y: u32 = other.bits;
            assert(x | y <= 0x3f) by (bit_vector)
                requires
                    x <= 0x3f,
                    y <= 0x3f,
            ;
        }
        let flags = StateFlags { bits: self.bits | other.bits };
        proof {
            assert forall|attribute: WindowAttribute|
                flags@.contains(attribute) == (self@.contains(attribute) || other@.contains(
                    attribute,
                )) by {
                lemma_bit_algebra(self.bits, other.bits, attribute.mask());
            }
            assert(flags@ =~= self@.union(other@));
        }
        flags
    }

    /// The attributes of this set that the other set does not hold.
    pub fn difference(self, other: StateFlags) -> (flags: StateFlags)
        ensures
            flags.wf(),
            flags@ == self@.difference(other@),
    {
        proof {
            use_type_invariant(&self);
            let x: u32 = self.bits;
            let y: u32 = other.bits;
            assert(x & !y <= 0x3f) by (bit_vector)
                requires
                    x <= 0x3f,
            ;
        }
        let flags = StateFlags { bits: self.bits & !other.bits };
        proof {
            assert forall|attribute: WindowAttribute|
                flags@.contains(attribute) == (self@.contains(attribute) && !other@.contains(
                    attribute,
                )) by {
                lemma_bit_algebra(self.bits, other.bits, attribute.mask());
            }
            assert(flags@ =~= self@.difference(other@));
        }
        flags
    }

    /// Whether the set holds the attribute.
    pub fn contains(&self, attribute: WindowAttribute) -> (held: bool)
        ensures
            held == self@.contains(attribute),
    {
        self.bits & attribute.bit() != 0
    }

    /// The set as bits: the sum of the bits of its attributes.
    pub fn bits(&self) -> (bits: u32)
        ensures
            bits == mask_of(self@),
    {
        proof {
            use_type_invariant(self);
            lemma_bits_are_sum(self.bits);
        }
        self.bits
    }
}

/// The attributes that are never saved. The shell itself decides whether a
/// window has decorations and when it is shown; a saved value put back blindly
/// could leave a window without borders or hidden for good.
pub open spec fn never_persisted() -> Set<WindowAttribute> {
    set![WindowAttribute::Decorations, WindowAttribute::Visible]
}

/// What is saved and restored of the attributes that can be captured: all of
/// them but those that are never saved.
pub open spec fn persisted(capturable: Set<WindowAttribute>) -> Set<WindowAttribute> {
    capturable.difference(never_persisted())
}

/// Of any set of attributes that can be captured, what is persisted is a part
/// of it that holds neither the decorations nor the visibility and holds every
/// other attribute of the set. It is less than the set wherever the set holds
/// one of the two.
pub proof fn lemma_persisted_is_all_but_excluded(capturable: Set<WindowAttribute>)
    ensures
        persisted(capturable).subset_of(capturable),
        !persisted(capturable).contains(WindowAttribute::Decorations),
        !persisted(capturable).contains(WindowAttribute::Visible),
        forall|attribute: WindowAttribute|
            persisted(capturable).contains(attribute) <==> capturable.contains(attribute)
                && attribute != WindowAttribute::Decorations && attribute
                != WindowAttribute::Visible,
        capturable.contains(WindowAttribute::Decorations) || capturable.contains(
            WindowAttribute::Visible,
        ) ==> persisted(capturable) != capturable,
{
}

/// To leave out what is never saved a second time changes nothing.
pub proof fn lemma_persisted_is_idempotent(capturable: Set<WindowAttribute>)
    ensures
        persisted(persisted(capturable)) == persisted(capturable),
{
    assert(persisted(persisted(capturable)) =~= persisted(capturable));
}

/// Of all six attributes, four are persisted: size, position, and whether the
/// window is maximized or fills the screen. Their bits add up to 39.
pub proof fn lemma_persisted_of_all()
    ensures
        persisted(Set::full()) == set![
            WindowAttribute::Size,
            WindowAttribute::Position,
            WindowAttribute::Maximized,
            WindowAttribute::Fullscreen,
        ],
        mask_of(persisted(Set::full())) == 0x27,
{
    assert(persisted(Set::full()) =~= set![
        WindowAttribute::Size,
        WindowAttribute::Position,
        WindowAttribute::Maximized,
        WindowAttribute::Fullscreen,
    ]);
}

/// Two flag sets that hold the same attributes are the same value.
pub proof fn lemma_same_attributes_same_flags(first: StateFlags, second: StateFlags)
    requires
        first.wf(),
        second.wf(),
        first@ == second@,
    ensures
        first == second,
{
    lemma_bits_are_sum(first.bits);
    lemma_bits_are_sum(second.bits);
    assert forall|attribute: WindowAttribute|
        (first.bits & attribute.mask() != 0) == (second.bits & attribute.mask() != 0) by {
        assert(first@.contains(attribute) == (first.bits & attribute.mask() != 0));
        assert(second@.contains(attribute) == (second.bits & attribute.mask() != 0));
    }
    assert(WindowAttribute::Size.mask() == 0x01);
    assert(WindowAttribute::Position.mask() == 0x02);
    assert(WindowAttribute::Maximized.mask() == 0x04);
    assert(WindowAttribute::Visible.mask() == 0x08);
    assert(WindowAttribute::Decorations.mask() == 0x10);
    assert(WindowAttribute::Fullscreen.mask() == 0x20);
}

/// Whatever two calls of `window_state_flags` return, they return the same
/// set: the values that meet its contract are all equal.
pub proof fn lemma_window_state_flags_agree(first: StateFlags, second: StateFlags)
    requires
        first.wf(),
        second.wf(),
        first@ == persisted(Set::full()),
        second@ == persisted(Set::full()),
    ensures
        first@ == second@,
        first == second,
{
    lemma_same_attributes_same_flags(first, second);
}

/// The attributes of a window that are saved when it closes and restored when
/// it opens: every attribute but its decorations and its visibility.
///
/// The result is a part of the set of all attributes and not the whole of it;
/// it leaves out the decorations and the visibility, and nothing else.
pub fn window_state_flags() -> (flags: StateFlags)
    ensures
        flags.wf(),
        flags@ == persisted(Set::full()),
        flags@.subset_of(Set::full()) && flags@ != Set::<WindowAttribute>::full(),
        forall|attribute: WindowAttribute|
            flags@.contains(attribute) <==> attribute != WindowAttribute::Decorations && attribute
                != WindowAttribute::Visible,
{
    proof {
        lemma_persisted_is_all_but_excluded(Set::full());
    }
    let flags = StateFlags::all().difference(StateFlags::of(WindowAttribute::Decorations)).difference(
        StateFlags::of(WindowAttribute::Visible),
    );
    assert(flags@ =~= persisted(Set::full()));
    flags
}

} // verus!
