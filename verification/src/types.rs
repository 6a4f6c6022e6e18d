use vstd::prelude::*;
verus! {

/// A 7-bit unsigned value, as carried by a MIDI data byte (0 to 127).
#[derive(Clone, Copy, Debug, PartialEq, Eq, Structural, Hash)]
pub struct U7(u8);

impl U7 {
    /// The number of distinct values of this type.
    pub const COUNT: u8 = 128;

    #[verifier::type_invariant]
    spec fn in_range(self) -> bool {
        self.0 < 128
    }

    /// The value holding `v`, for use in specifications.
    pub closed spec fn from_value(v: u8) -> U7 {
        U7(v)
    }

    pub broadcast proof fn lemma_from_value(v: u8)
        ensures
            (#[trigger] U7::from_value(v))@ == v,
    {
    }

    pub broadcast proof fn lemma_view_injective(a: U7, b: U7)
        ensures
            #[trigger] a@ == #[trigger] b@ ==> a == b,
    {
    }

    /// Creates the value `v`; `v` must be in range.
    pub fn new(v: u8) -> (r: U7)
        requires
            v < 128,
        ensures
            r@ == v,
    {
        U7(v)
    }

    /// The number that this value holds.
    pub fn get(&self) -> (r: u8)
        ensures
            r == self@,
            r < 128,
    {
        proof {
            use_type_invariant(self);
        }
        self.0
    }
}

impl View for U7 {
    type V = u8;

    closed spec fn view(&self) -> u8 {
        self.0
    }
}

/// Shorthand for [`U7::new`].
pub fn u7(v: u8) -> (r: U7)
    requires
        v < 128,
    ensures
        r@ == v,
{
    U7::new(v)
}

/// A 14-bit unsigned value, as carried by two MIDI data bytes (0 to 16383).
#[derive(Clone, Copy, Debug, PartialEq, Eq, Structural, Hash)]
pub struct U14(u16);

impl U14 {
    /// The number of distinct values of this type.
    pub const COUNT: u16 = 16384;

    #[verifier::type_invariant]
    spec fn in_range(self) -> bool {
        self.0 < 16384
    }

    /// The value holding `v`, for use in specifications.
    pub closed spec fn from_value(v: u16) -> U14 {
        U14(v)
    }

    pub broadcast proof fn lemma_from_value(v: u16)
        ensures
            (#[trigger] U14::from_value(v))@ == v,
    {
    }

    pub broadcast proof fn lemma_view_injective(a: U14, b: U14)
        ensures
            #[trigger] a@ == #[trigger] b@ ==> a == b,
    {
    }

    /// Creates the value `v`; `v` must be in range.
    pub fn new(v: u16) -> (r: U14)
        requires
            v < 16384,
        ensures
            r@ == v,
    {
        U14(v)
    }

    /// The number that this value holds.
    pub fn get(&self) -> (r: u16)
        ensures
            r == self@,
            r < 16384,
    {
        proof {
            use_type_invariant(self);
        }
        self.0
    }
}

impl View for U14 {
    type V = u16;

    closed spec fn view(&self) -> u16 {
        self.0
    }
}

/// Shorthand for [`U14::new`].
pub fn u14(v: u16) -> (r: U14)
    requires
        v < 16384,
    ensures
        r@ == v,
{
    U14::new(v)
}

/// A MIDI channel (0 to 15).
#[derive(Clone, Copy, Debug, PartialEq, Eq, Structural, Hash)]
pub struct Channel(u8);

impl Channel {
    /// The number of distinct values of this type.
    pub const COUNT: u8 = 16;

    #[verifier::type_invariant]
    spec fn in_range(self) -> bool {
        self.0 < 16
    }

    /// The value holding `v`, for use in specifications.
    pub closed spec fn from_value(v: u8) -> Channel {
        Channel(v)
    }

    pub broadcast proof fn lemma_from_value(v: u8)
        ensures
            (#[trigger] Channel::from_value(v))@ == v,
    {
    }

    pub broadcast proof fn lemma_view_injective(a: Channel, b: Channel)
        ensures
            #[trigger] a@ == #[trigger] b@ ==> a == b,
    {
    }

    /// Creates the value `v`; `v` must be in range.
    pub fn new(v: u8) -> (r: Channel)
        requires
            v < 16,
        ensures
            r@ == v,
    {
        Channel(v)
    }

    /// The number that this value holds.
    pub fn get(&self) -> (r: u8)
        ensures
            r == self@,
            r < 16,
    {
        proof {
            use_type_invariant(self);
        }
        self.0
    }
}

impl View for Channel {
    type V = u8;

    closed spec fn view(&self) -> u8 {
        self.0
    }
}

/// Shorthand for [`Channel::new`].
pub fn channel(v: u8) -> (r: Channel)
    requires
        v < 16,
    ensures
        r@ == v,
{
    Channel::new(v)
}

/// A MIDI key number (0 to 127).
#[derive(Clone, Copy, Debug, PartialEq, Eq, Structural, Hash)]
pub struct KeyNumber(u8);

impl KeyNumber {
    /// The number of distinct values of this type.
    pub const COUNT: u8 = 128;

    #[verifier::type_invariant]
    spec fn in_range(self) -> bool {
        self.0 < 128
    }

    /// The value holding `v`, for use in specifications.
    pub closed spec fn from_value(v: u8) -> KeyNumber {
        KeyNumber(v)
    }

    pub broadcast proof fn lemma_from_value(v: u8)
        ensures
            (#[trigger] KeyNumber::from_value(v))@ == v,
    {
    }

    pub broadcast proof fn lemma_view_injective(a: KeyNumber, b: KeyNumber)
        ensures
            #[trigger] a@ == #[trigger] b@ ==> a == b,
    {
    }

    /// Creates the value `v`; `v` must be in range.
    pub fn new(v: u8) -> (r: KeyNumber)
        requires
            v < 128,
        ensures
            r@ == v,
    {
        KeyNumber(v)
    }

    /// The number that this value holds.
    pub fn get(&self) -> (r: u8)
        ensures
            r == self@,
            r < 128,
    {
        proof {
            use_type_invariant(self);
        }
        self.0
    }
}

impl View for KeyNumber {
    type V = u8;

    closed spec fn view(&self) -> u8 {
        self.0
    }
}

/// Shorthand for [`KeyNumber::new`].
pub fn key_number(v: u8) -> (r: KeyNumber)
    requires
        v < 128,
    ensures
        r@ == v,
{
    KeyNumber::new(v)
}

/// A MIDI controller number (0 to 127).
#[derive(Clone, Copy, Debug, PartialEq, Eq, Structural, Hash)]
pub struct ControllerNumber(u8);

impl ControllerNumber {
    /// The number of distinct values of this type.
    pub const COUNT: u8 = 128;

    #[verifier::type_invariant]
    spec fn in_range(self) -> bool {
        self.0 < 128
    }

    /// The value holding `v`, for use in specifications.
    pub closed spec fn from_value(v: u8) -> ControllerNumber {
        ControllerNumber(v)
    }

    pub broadcast proof fn lemma_from_value(v: u8)
        ensures
            (#[trigger] ControllerNumber::from_value(v))@ == v,
    {
    }

    pub broadcast proof fn lemma_view_injective(a: ControllerNumber, b: ControllerNumber)
        ensures
            #[trigger] a@ == #[trigger] b@ ==> a == b,
    {
    }

    /// Creates the value `v`; `v` must be in range.
    pub fn new(v: u8) -> (r: ControllerNumber)
        requires
            v < 128,
        ensures
            r@ == v,
    {
        ControllerNumber(v)
    }

    /// The number that this value holds.
    pub fn get(&self) -> (r: u8)
        ensures
            r == self@,
            r < 128,
    {
        proof {
            use_type_invariant(self);
        }
        self.0
    }
}

impl View for ControllerNumber {
    type V = u8;

    closed spec fn view(&self) -> u8 {
        self.0
    }
}

/// Shorthand for [`ControllerNumber::new`].
pub fn controller_number(v: u8) -> (r: ControllerNumber)
    requires
        v < 128,
    ensures
        r@ == v,
{
    ControllerNumber::new(v)
}

/// A MIDI program number (0 to 127).
#[derive(Clone, Copy, Debug, PartialEq, Eq, Structural, Hash)]
pub struct ProgramNumber(u8);

impl ProgramNumber {
    /// The number of distinct values of this type.
    pub const COUNT: u8 = 128;

    #[verifier::type_invariant]
    spec fn in_range(self) -> bool {
        self.0 < 128
    }

    /// The value holding `v`, for use in specifications.
    pub closed spec fn from_value(v: u8) -> ProgramNumber {
        ProgramNumber(v)
    }

    pub broadcast proof fn lemma_from_value(v: u8)
        ensures
            (#[trigger] ProgramNumber::from_value(v))@ == v,
    {
    }

    pub broadcast proof fn lemma_view_injective(a: ProgramNumber, b: ProgramNumber)
        ensures
            #[trigger] a@ == #[trigger] b@ ==> a == b,
    {
    }

    /// Creates the value `v`; `v` must be in range.
    pub fn new(v: u8) -> (r: ProgramNumber)
        requires
            v < 128,
        ensures
            r@ == v,
    {
        ProgramNumber(v)
    }

    /// The number that this value holds.
    pub fn get(&self) -> (r: u8)
        ensures
            r == self@,
            r < 128,
    {
        proof {
            use_type_invariant(self);
        }
        self.0
    }
}

impl View for ProgramNumber {
    type V = u8;

    closed spec fn view(&self) -> u8 {
        self.0
    }
}

/// Shorthand for [`ProgramNumber::new`].
pub fn program_number(v: u8) -> (r: ProgramNumber)
    requires
        v < 128,
    ensures
        r@ == v,
{
    ProgramNumber::new(v)
}

impl KeyNumber {
    /// The value carried by the 7-bit number `v`.
    pub fn from_u7(v: U7) -> (r: KeyNumber)
        ensures
            r@ == v@,
    {
        KeyNumber::new(v.get())
    }

    /// The 7-bit number that carries this value.
    pub fn to_u7(&self) -> (r: U7)
        ensures
            r@ == self@,
    {
        U7::new(self.get())
    }
}

impl ControllerNumber {
    /// The value carried by the 7-bit number `v`.
    pub fn from_u7(v: U7) -> (r: ControllerNumber)
        ensures
            r@ == v@,
    {
        ControllerNumber::new(v.get())
    }

    /// The 7-bit number that carries this value.
    pub fn to_u7(&self) -> (r: U7)
        ensures
            r@ == self@,
    {
        U7::new(self.get())
    }
}

impl ProgramNumber {
    /// The value carried by the 7-bit number `v`.
    pub fn from_u7(v: U7) -> (r: ProgramNumber)
        ensures
            r@ == v@,
    {
        ProgramNumber::new(v.get())
    }

    /// The 7-bit number that carries this value.
    pub fn to_u7(&self) -> (r: U7)
        ensures
            r@ == self@,
    {
        U7::new(self.get())
    }
}

pub broadcast group group_value_types {
    U7::lemma_from_value,
    U7::lemma_view_injective,
    U14::lemma_from_value,
    U14::lemma_view_injective,
    Channel::lemma_from_value,
    Channel::lemma_view_injective,
    KeyNumber::lemma_from_value,
    KeyNumber::lemma_view_injective,
    ControllerNumber::lemma_from_value,
    ControllerNumber::lemma_view_injective,
    ProgramNumber::lemma_from_value,
    ProgramNumber::lemma_view_injective,
}

} // verus!
