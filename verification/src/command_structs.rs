//! The typed parameters of the commands: the orientation register `MADCTL`
//! and the colour mode `COLMOD`.
use vstd::prelude::*;
use vstd::std_specs::convert::FromSpecImpl;

verus! {

/// Bit `i` of a register byte.
pub open spec fn bit_of(raw: u8, i: u8) -> bool {
    (raw >> i) & 1 == 1
}

/// A register byte with bit `i` set or cleared.
pub open spec fn with_bit(raw: u8, i: u8, on: bool) -> u8 {
    if on {
        raw | (1u8 << i)
    } else {
        raw & !(1u8 << i)
    }
}

/// A bit that was just written reads back as written.
pub proof fn lemma_with_bit_same(raw: u8, i: u8, on: bool)
    requires
        i < 8,
    ensures
        bit_of(with_bit(raw, i, on), i) == on,
{
    assert(i < 8 ==> (((raw | (1u8 << i)) >> i) & 1 == 1)) by (bit_vector);
    assert(i < 8 ==> !(((raw & !(1u8 << i)) >> i) & 1 == 1)) by (bit_vector);
}

/// Writing one bit leaves every other bit as it was.
pub proof fn lemma_with_bit_other(raw: u8, i: u8, j: u8, on: bool)
    requires
        i < 8,
        j < 8,
        i != j,
    ensures
        bit_of(with_bit(raw, i, on), j) == bit_of(raw, j),
{
    assert(i < 8 && j < 8 && i != j ==> (((raw | (1u8 << i)) >> j) & 1 == 1) == ((raw >> j) & 1
        == 1)) by (bit_vector);
    assert(i < 8 && j < 8 && i != j ==> (((raw & !(1u8 << i)) >> j) & 1 == 1) == ((raw >> j) & 1
        == 1)) by (bit_vector);
}

/// The row order of the LCD pixels.
#[derive(Clone, Copy, Debug, PartialEq, Eq, Structural)]
pub enum RowOrder {
    TopToBottom,
    BottomToTop,
}

impl RowOrder {
    /// The level of the register bit that stands for this value.
    pub open spec fn bit(self) -> bool {
        self is TopToBottom
    }

    /// The value that a level of the register bit stands for.
    pub open spec fn of_bit(bit: bool) -> Self {
        if bit {
            Self::TopToBottom
        } else {
            Self::BottomToTop
        }
    }

    fn from_bool(b: bool) -> (r: Self)
        ensures
            r == Self::of_bit(b),
    {
        if b {
            Self::TopToBottom
        } else {
            Self::BottomToTop
        }
    }

    fn to_bool(&self) -> (b: bool)
        ensures
            b == !self.bit(),
    {
        match *self {
            Self::TopToBottom => false,
            Self::BottomToTop => true,
        }
    }

    /// The name of the value, as it is printed.
    pub fn name(&self) -> (s: &'static str)
        ensures
            s@ == (if *self is TopToBottom {
                "TopToBottom"@
            } else {
                "BottomToTop"@
            }),
    {
        match *self {
            Self::TopToBottom => "TopToBottom",
            Self::BottomToTop => "BottomToTop",
        }
    }
}

impl Default for RowOrder {
    fn default() -> (r: Self)
        ensures
            r == Self::TopToBottom,
    {
        Self::TopToBottom
    }
}

/// The column order of the LCD pixels.
#[derive(Clone, Copy, Debug, PartialEq, Eq, Structural)]
pub enum ColumnOrder {
    LeftToRight,
    RightToLeft,
}

impl ColumnOrder {
    /// The level of the register bit that stands for this value.
    pub open spec fn bit(self) -> bool {
        self is LeftToRight
    }

    /// The value that a level of the register bit stands for.
    pub open spec fn of_bit(bit: bool) -> Self {
        if bit {
            Self::LeftToRight
        } else {
            Self::RightToLeft
        }
    }

    fn from_bool(b: bool) -> (r: Self)
        ensures
            r == Self::of_bit(b),
    {
        if b {
            Self::LeftToRight
        } else {
            Self::RightToLeft
        }
    }

    fn to_bool(&self) -> (b: bool)
        ensures
            b == !self.bit(),
    {
        match *self {
            Self::LeftToRight => false,
            Self::RightToLeft => true,
        }
    }

    /// The name of the value, as it is printed.
    pub fn name(&self) -> (s: &'static str)
        ensures
            s@ == (if *self is LeftToRight {
                "LeftToRight"@
            } else {
                "RightToLeft"@
            }),
    {
        match *self {
            Self::LeftToRight => "LeftToRight",
            Self::RightToLeft => "RightToLeft",
        }
    }
}

impl Default for ColumnOrder {
    fn default() -> (r: Self)
        ensures
            r == Self::LeftToRight,
    {
        Self::LeftToRight
    }
}

/// Whether to swap the row and column definitions, i.e., to switch between
/// the portrait and landscape mode.
#[derive(Clone, Copy, Debug, PartialEq, Eq, Structural)]
pub enum RowColumnSwap {
    Unswapped,
    Swapped,
}

impl RowColumnSwap {
    /// The level of the register bit that stands for this value.
    pub open spec fn bit(self) -> bool {
        self is Unswapped
    }

    /// The value that a level of the register bit stands for.
    pub open spec fn of_bit(bit: bool) -> Self {
        if bit {
            Self::Unswapped
        } else {
            Self::Swapped
        }
    }

    fn from_bool(b: bool) -> (r: Self)
        ensures
            r == Self::of_bit(b),
    {
        if b {
            Self::Unswapped
        } else {
            Self::Swapped
        }
    }

    fn to_bool(&self) -> (b: bool)
        ensures
            b == !self.bit(),
    {
        match *self {
            Self::Unswapped => false,
            Self::Swapped => true,
        }
    }

    /// The name of the value, as it is printed.
    pub fn name(&self) -> (s: &'static str)
        ensures
            s@ == (if *self is Unswapped {
                "Unswapped"@
            } else {
                "Swapped"@
            }),
    {
        match *self {
            Self::Unswapped => "Unswapped",
            Self::Swapped => "Swapped",
        }
    }
}

impl Default for RowColumnSwap {
    fn default() -> (r: Self)
        ensures
            r == Self::Unswapped,
    {
        Self::Unswapped
    }
}

/// R/G/B component order inside a pixel.
#[derive(Clone, Copy, Debug, PartialEq, Eq, Structural)]
pub enum ColorComponentOrder {
    RedGreenBlue,
    BlueGreenRed,
}

impl ColorComponentOrder {
    /// The level of the register bit that stands for this value.
    pub open spec fn bit(self) -> bool {
        self is RedGreenBlue
    }

    /// The value that a level of the register bit stands for.
    pub open spec fn of_bit(bit: bool) -> Self {
        if bit {
            Self::RedGreenBlue
        } else {
            Self::BlueGreenRed
        }
    }

    fn from_bool(b: bool) -> (r: Self)
        ensures
            r == Self::of_bit(b),
    {
        if b {
            Self::RedGreenBlue
        } else {
            Self::BlueGreenRed
        }
    }

    fn to_bool(&self) -> (b: bool)
        ensures
            b == !self.bit(),
    {
        match *self {
            Self::RedGreenBlue => false,
            Self::BlueGreenRed => true,
        }
    }

    /// The name of the value, as it is printed.
    pub fn name(&self) -> (s: &'static str)
        ensures
            s@ == (if *self is RedGreenBlue {
                "RedGreenBlue"@
            } else {
                "BlueGreenRed"@
            }),
    {
        match *self {
            Self::RedGreenBlue => "RedGreenBlue",
            Self::BlueGreenRed => "BlueGreenRed",
        }
    }
}

impl Default for ColorComponentOrder {
    fn default() -> (r: Self)
        ensures
            r == Self::RedGreenBlue,
    {
        Self::RedGreenBlue
    }
}

/// Defines the orientation parameters of the screen: one byte with one bit
/// for each of six settings.
#[derive(Clone, Copy)]
pub struct Madctl {
    data: u8,
}

impl Default for Madctl {
    fn default() -> (m: Self)
        ensures
            m.raw() == 0,
    {
        Madctl { data: 0 }
    }
}

impl Madctl {
    /// The byte that goes to the register.
    pub closed spec fn raw(&self) -> u8 {
        self.data
    }

    /// The settings that a byte of the register stands for.
    pub closed spec fn of_raw(raw: u8) -> Madctl {
        Madctl { data: raw }
    }

    /// A byte of the register survives the way to the settings and back, and
    /// the settings survive the way to the register and back.
    pub proof fn lemma_round_trip(self, raw: u8)
        ensures
            Madctl::of_raw(raw).raw() == raw,
            Madctl::of_raw(self.raw()) == self,
    {
    }

    fn get(&self, i: u8) -> (b: bool)
        requires
            i < 8,
        ensures
            b == bit_of(self.raw(), i),
    {
        (self.data >> i) & 1 == 1
    }

    fn put(&mut self, i: u8, clear: bool)
        requires
            i < 8,
        ensures
            final(self).raw() == with_bit(old(self).raw(), i, !clear),
    {
        if clear {
            self.data = self.data & !(1u8 << i);
        } else {
            self.data = self.data | (1u8 << i);
        }
    }

    pub fn row_address_order(&self) -> (r: RowOrder)
        ensures
            r == RowOrder::of_bit(bit_of(self.raw(), 7)),
    {
        RowOrder::from_bool(self.get(7))
    }

    pub fn set_row_address_order(&mut self, value: RowOrder) -> (ret: &mut Self)
        ensures
            ret.raw() == with_bit(old(self).raw(), 7, value.bit()),
            *final(self) == *final(ret),
    {
        self.put(7, value.to_bool());
        self
    }

    pub fn column_address_order(&self) -> (r: ColumnOrder)
        ensures
            r == ColumnOrder::of_bit(bit_of(self.raw(), 6)),
    {
        ColumnOrder::from_bool(self.get(6))
    }

    pub fn set_column_address_order(&mut self, value: ColumnOrder) -> (ret: &mut Self)
        ensures
            ret.raw() == with_bit(old(self).raw(), 6, value.bit()),
            *final(self) == *final(ret),
    {
        self.put(6, value.to_bool());
        self
    }

    pub fn row_column_swap(&self) -> (r: RowColumnSwap)
        ensures
            r == RowColumnSwap::of_bit(bit_of(self.raw(), 5)),
    {
        RowColumnSwap::from_bool(self.get(5))
    }

    pub fn set_row_column_swap(&mut self, value: RowColumnSwap) -> (ret: &mut Self)
        ensures
            ret.raw() == with_bit(old(self).raw(), 5, value.bit()),
            *final(self) == *final(ret),
    {
        self.put(5, value.to_bool());
        self
    }

    pub fn vertical_refresh_order(&self) -> (r: RowOrder)
        ensures
            r == RowOrder::of_bit(bit_of(self.raw(), 4)),
    {
        RowOrder::from_bool(self.get(4))
    }

    pub fn set_vertical_refresh_order(&mut self, value: RowOrder) -> (ret: &mut Self)
        ensures
            ret.raw() == with_bit(old(self).raw(), 4, value.bit()),
            *final(self) == *final(ret),
    {
        self.put(4, value.to_bool());
        self
    }

    pub fn horizontal_refresh_order(&self) -> (r: ColumnOrder)
        ensures
            r == ColumnOrder::of_bit(bit_of(self.raw(), 2)),
    {
        ColumnOrder::from_bool(self.get(2))
    }

    pub fn set_horizontal_refresh_order(&mut self, value: ColumnOrder) -> (ret: &mut Self)
        ensures
            ret.raw() == with_bit(old(self).raw(), 2, value.bit()),
            *final(self) == *final(ret),
    {
        self.put(2, value.to_bool());
        self
    }

    pub fn rgb_order(&self) -> (r: ColorComponentOrder)
        ensures
            r == ColorComponentOrder::of_bit(bit_of(self.raw(), 3)),
    {
        ColorComponentOrder::from_bool(self.get(3))
    }

    pub fn set_rgb_order(&mut self, value: ColorComponentOrder) -> (ret: &mut Self)
        ensures
            ret.raw() == with_bit(old(self).raw(), 3, value.bit()),
            *final(self) == *final(ret),
    {
        self.put(3, value.to_bool());
        self
    }
}

impl From<u8> for Madctl {
    fn from(raw: u8) -> (mctl: Madctl) {
        Madctl { data: raw }
    }
}

impl FromSpecImpl<u8> for Madctl {
    open spec fn obeys_from_spec() -> bool {
        true
    }

    open spec fn from_spec(raw: u8) -> Madctl {
        Madctl::of_raw(raw)
    }
}

impl From<Madctl> for u8 {
    fn from(mctl: Madctl) -> (raw: u8) {
        mctl.data
    }
}

impl FromSpecImpl<Madctl> for u8 {
    open spec fn obeys_from_spec() -> bool {
        true
    }

    open spec fn from_spec(mctl: Madctl) -> u8 {
        mctl.raw()
    }
}

/// Color mode (the bit widths of the R, G and B components of a pixel).
///
/// The native format is 6-bit for each component. When another (smaller) mode
/// is used, the LCD will internally convert each component into the 6-bit
/// format with a lookup table.
#[derive(Clone, Copy, Debug, PartialEq, Eq, Structural)]
pub enum Colmod {
    /// Each component has 4 bits. LUT will be used.
    R4G4B4,
    /// Red has 5 bits; green has 6 bits; blue has 5 bits. LUT will be used.
    R5G6B5,
    /// Each compoment has 6 bits. This is the native format; LUT will **not**
    /// be used.
    R6G6B6,
    /// No idea when this value can be used.
    Unknown,
}

impl Colmod {
    /// The value of the register for this mode.
    pub open spec fn raw(self) -> u8 {
        match self {
            Colmod::R4G4B4 => 0b011,
            Colmod::R5G6B5 => 0b101,
            Colmod::R6G6B6 => 0b110,
            Colmod::Unknown => 0b111,
        }
    }

    /// The mode that a value of the register stands for. Any value that is
    /// not one of the three known ones is `Unknown`.
    pub open spec fn of_raw(raw: u8) -> Colmod {
        if raw == 0b011 {
            Colmod::R4G4B4
        } else if raw == 0b101 {
            Colmod::R5G6B5
        } else if raw == 0b110 {
            Colmod::R6G6B6
        } else {
            Colmod::Unknown
        }
    }

    /// A mode survives the way to the register and back.
    pub proof fn lemma_round_trip(self)
        ensures
            Colmod::of_raw(self.raw()) == self,
    {
    }

    /// A value of the register survives the way to a mode and back exactly
    /// if it is one of the four that a mode stands for.
    pub proof fn lemma_raw_round_trip(raw: u8)
        ensures
            Colmod::of_raw(raw).raw() == raw <==> (raw == 0b011 || raw == 0b101 || raw == 0b110
                || raw == 0b111),
    {
    }
}

impl Default for Colmod {
    fn default() -> (c: Self)
        ensures
            c == Colmod::Unknown,
    {
        Self::Unknown
    }
}

impl From<Colmod> for u8 {
    fn from(colmod: Colmod) -> (raw: u8) {
        match colmod {
            Colmod::R4G4B4 => 0b011,
            Colmod::R5G6B5 => 0b101,
            Colmod::R6G6B6 => 0b110,
            Colmod::Unknown => 0b111,
        }
    }
}

impl FromSpecImpl<Colmod> for u8 {
    open spec fn obeys_from_spec() -> bool {
        true
    }

    open spec fn from_spec(colmod: Colmod) -> u8 {
        colmod.raw()
    }
}

const R4G4B4_VALUE: u8 = 0b011;

const R5G6B5_VALUE: u8 = 0b101;

const R6G6B6_VALUE: u8 = 0b110;

impl From<u8> for Colmod {
    fn from(raw: u8) -> (colmod: Self) {
        match raw {
            R4G4B4_VALUE => Colmod::R4G4B4,
            R5G6B5_VALUE => Colmod::R5G6B5,
            R6G6B6_VALUE => Colmod::R6G6B6,
            _ => Colmod::Unknown,
        }
    }
}

impl FromSpecImpl<u8> for Colmod {
    open spec fn obeys_from_spec() -> bool {
        true
    }

    open spec fn from_spec(raw: u8) -> Colmod {
        Colmod::of_raw(raw)
    }
}

} // verus!
