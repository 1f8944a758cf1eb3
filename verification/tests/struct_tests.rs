use st7735_async_low::adapters::split_u16;
use st7735_async_low::command_structs::{
    Colmod, ColorComponentOrder, ColumnOrder, Madctl, RowColumnSwap, RowOrder,
};
use st7735_async_low::commands::split_ids;
use st7735_async_low::spi::shift_in;

#[test]
fn split_u16_is_high_then_low_for_every_value() {
    for v in 0..=u16::MAX {
        let (high, low) = split_u16(v);
        assert_eq!(high as u16, v >> 8);
        assert_eq!(low as u16, v & 0xFF);
        assert_eq!((high as u16) << 8 | low as u16, v);
    }
}

#[test]
fn split_u16_exact() {
    assert_eq!(split_u16(0x1234), (0x12, 0x34));
    assert_eq!(split_u16(0x0000), (0x00, 0x00));
    assert_eq!(split_u16(0xFFFF), (0xFF, 0xFF));
    assert_eq!(split_u16(0x00FF), (0x00, 0xFF));
    assert_eq!(split_u16(0xFF00), (0xFF, 0x00));
}

#[test]
fn split_ids_drops_the_dummy_bit() {
    assert_eq!(
        split_ids(0b0_11110000_11010010_01100001),
        [0xF0, 0xD2, 0x61]
    );
    assert_eq!(
        split_ids(0b1_11110000_11010010_01100001),
        [0xF0, 0xD2, 0x61]
    );
    assert_eq!(split_ids(0), [0, 0, 0]);
    assert_eq!(split_ids(0x01FF_FFFF), [0xFF, 0xFF, 0xFF]);
    assert_eq!(split_ids(0x007C_8901), [0x7C, 0x89, 0x01]);
}

#[test]
fn shift_in_exact() {
    assert_eq!(shift_in(0, false), 0);
    assert_eq!(shift_in(0, true), 1);
    assert_eq!(shift_in(0b101, true), 0b1011);
    assert_eq!(shift_in(0b101, false), 0b1010);
    assert_eq!(shift_in(0x7FFF_FFFF, true), 0xFFFF_FFFF);
    // The top bit falls off.
    assert_eq!(shift_in(0x8000_0001, true), 0x0000_0003);
    assert_eq!(shift_in(0xFFFF_FFFF, false), 0xFFFF_FFFE);
}

#[test]
fn colmod_from_raw() {
    assert_eq!(Colmod::from(0b011), Colmod::R4G4B4);
    assert_eq!(Colmod::from(0b101), Colmod::R5G6B5);
    assert_eq!(Colmod::from(0b110), Colmod::R6G6B6);
    assert_eq!(Colmod::from(0b111), Colmod::Unknown);
    for raw in 0..=u8::MAX {
        if raw != 0b011 && raw != 0b101 && raw != 0b110 {
            assert_eq!(Colmod::from(raw), Colmod::Unknown);
        }
    }
}

#[test]
fn colmod_to_raw() {
    assert_eq!(u8::from(Colmod::R4G4B4), 0b011);
    assert_eq!(u8::from(Colmod::R5G6B5), 0b101);
    assert_eq!(u8::from(Colmod::R6G6B6), 0b110);
    assert_eq!(u8::from(Colmod::Unknown), 0b111);
}

#[test]
fn colmod_round_trips() {
    for c in [
        Colmod::R4G4B4,
        Colmod::R5G6B5,
        Colmod::R6G6B6,
        Colmod::Unknown,
    ] {
        assert_eq!(Colmod::from(u8::from(c)), c);
    }
    for raw in 0..=u8::MAX {
        let back = u8::from(Colmod::from(raw));
        let mapped = raw == 0b011 || raw == 0b101 || raw == 0b110 || raw == 0b111;
        assert_eq!(back == raw, mapped);
    }
}

#[test]
fn colmod_default_is_unknown() {
    assert_eq!(Colmod::default(), Colmod::Unknown);
}

#[test]
fn madctl_default_is_zero() {
    assert_eq!(u8::from(Madctl::default()), 0);
}

#[test]
fn madctl_packs_to_0x3c() {
    let mut mctl = Madctl::default();
    mctl.set_row_address_order(RowOrder::BottomToTop)
        .set_column_address_order(ColumnOrder::RightToLeft)
        .set_row_column_swap(RowColumnSwap::Unswapped)
        .set_vertical_refresh_order(RowOrder::TopToBottom)
        .set_horizontal_refresh_order(ColumnOrder::LeftToRight)
        .set_rgb_order(ColorComponentOrder::RedGreenBlue);
    assert_eq!(u8::from(mctl), 0x3C);
    assert_eq!(mctl.row_address_order(), RowOrder::BottomToTop);
    assert_eq!(mctl.column_address_order(), ColumnOrder::RightToLeft);
    assert_eq!(mctl.row_column_swap(), RowColumnSwap::Unswapped);
    assert_eq!(mctl.vertical_refresh_order(), RowOrder::TopToBottom);
    assert_eq!(mctl.horizontal_refresh_order(), ColumnOrder::LeftToRight);
    assert_eq!(mctl.rgb_order(), ColorComponentOrder::RedGreenBlue);
}

#[test]
fn madctl_packs_to_0xc0() {
    let mut mctl = Madctl::default();
    mctl.set_row_address_order(RowOrder::TopToBottom)
        .set_column_address_order(ColumnOrder::LeftToRight)
        .set_row_column_swap(RowColumnSwap::Swapped)
        .set_vertical_refresh_order(RowOrder::BottomToTop)
        .set_horizontal_refresh_order(ColumnOrder::RightToLeft)
        .set_rgb_order(ColorComponentOrder::BlueGreenRed);
    assert_eq!(u8::from(mctl), 0xC0);
    assert_eq!(mctl.row_address_order(), RowOrder::TopToBottom);
    assert_eq!(mctl.row_column_swap(), RowColumnSwap::Swapped);
}

#[test]
fn madctl_each_setter_moves_its_own_bit_only() {
    let mut m = Madctl::default();
    m.set_row_address_order(RowOrder::TopToBottom);
    assert_eq!(u8::from(m), 1 << 7);
    m.set_row_address_order(RowOrder::BottomToTop);
    assert_eq!(u8::from(m), 0);

    m.set_column_address_order(ColumnOrder::LeftToRight);
    assert_eq!(u8::from(m), 1 << 6);
    m.set_column_address_order(ColumnOrder::RightToLeft);
    assert_eq!(u8::from(m), 0);

    m.set_row_column_swap(RowColumnSwap::Unswapped);
    assert_eq!(u8::from(m), 1 << 5);
    m.set_row_column_swap(RowColumnSwap::Swapped);
    assert_eq!(u8::from(m), 0);

    m.set_vertical_refresh_order(RowOrder::TopToBottom);
    assert_eq!(u8::from(m), 1 << 4);
    m.set_vertical_refresh_order(RowOrder::BottomToTop);
    assert_eq!(u8::from(m), 0);

    m.set_rgb_order(ColorComponentOrder::RedGreenBlue);
    assert_eq!(u8::from(m), 1 << 3);
    m.set_rgb_order(ColorComponentOrder::BlueGreenRed);
    assert_eq!(u8::from(m), 0);

    m.set_horizontal_refresh_order(ColumnOrder::LeftToRight);
    assert_eq!(u8::from(m), 1 << 2);
    m.set_horizontal_refresh_order(ColumnOrder::RightToLeft);
    assert_eq!(u8::from(m), 0);
}

#[test]
fn madctl_default_reads_as_the_second_values() {
    let m = Madctl::default();
    assert_eq!(m.row_address_order(), RowOrder::BottomToTop);
    assert_eq!(m.column_address_order(), ColumnOrder::RightToLeft);
    assert_eq!(m.row_column_swap(), RowColumnSwap::Swapped);
    assert_eq!(m.vertical_refresh_order(), RowOrder::BottomToTop);
    assert_eq!(m.horizontal_refresh_order(), ColumnOrder::RightToLeft);
    assert_eq!(m.rgb_order(), ColorComponentOrder::BlueGreenRed);
}

#[test]
fn madctl_setting_twice_is_setting_once() {
    let mut once = Madctl::default();
    once.set_rgb_order(ColorComponentOrder::RedGreenBlue);
    let mut twice = Madctl::default();
    twice
        .set_rgb_order(ColorComponentOrder::RedGreenBlue)
        .set_rgb_order(ColorComponentOrder::RedGreenBlue);
    assert_eq!(u8::from(once), u8::from(twice));
}

#[test]
fn bit_type_defaults() {
    assert_eq!(RowOrder::default(), RowOrder::TopToBottom);
    assert_eq!(ColumnOrder::default(), ColumnOrder::LeftToRight);
    assert_eq!(RowColumnSwap::default(), RowColumnSwap::Unswapped);
    assert_eq!(ColorComponentOrder::default(), ColorComponentOrder::RedGreenBlue);
}

#[test]
fn bit_type_names() {
    assert_eq!(RowOrder::TopToBottom.name(), "TopToBottom");
    assert_eq!(RowOrder::BottomToTop.name(), "BottomToTop");
    assert_eq!(ColumnOrder::LeftToRight.name(), "LeftToRight");
    assert_eq!(ColumnOrder::RightToLeft.name(), "RightToLeft");
    assert_eq!(RowColumnSwap::Unswapped.name(), "Unswapped");
    assert_eq!(RowColumnSwap::Swapped.name(), "Swapped");
    assert_eq!(ColorComponentOrder::RedGreenBlue.name(), "RedGreenBlue");
    assert_eq!(ColorComponentOrder::BlueGreenRed.name(), "BlueGreenRed");
    assert_eq!(format!("{:?}", RowOrder::TopToBottom), RowOrder::TopToBottom.name());
}

#[test]
fn madctl_round_trips_through_its_byte() {
    for raw in 0..=u8::MAX {
        let m = Madctl::from(raw);
        assert_eq!(u8::from(m), raw);
        assert_eq!(m.row_address_order() == RowOrder::TopToBottom, raw & 0x80 != 0);
        assert_eq!(m.column_address_order() == ColumnOrder::LeftToRight, raw & 0x40 != 0);
        assert_eq!(m.row_column_swap() == RowColumnSwap::Unswapped, raw & 0x20 != 0);
        assert_eq!(m.vertical_refresh_order() == RowOrder::TopToBottom, raw & 0x10 != 0);
        assert_eq!(m.rgb_order() == ColorComponentOrder::RedGreenBlue, raw & 0x08 != 0);
        assert_eq!(m.horizontal_refresh_order() == ColumnOrder::LeftToRight, raw & 0x04 != 0);
    }
}

#[test]
fn madctl_setters_keep_the_other_bits_for_every_byte() {
    for raw in 0..=u8::MAX {
        let mut m = Madctl::from(raw);
        m.set_rgb_order(ColorComponentOrder::BlueGreenRed);
        assert_eq!(u8::from(m), raw & !0x08);
        m.set_rgb_order(ColorComponentOrder::RedGreenBlue);
        assert_eq!(u8::from(m), raw | 0x08);

        let mut m = Madctl::from(raw);
        m.set_row_address_order(RowOrder::BottomToTop);
        assert_eq!(u8::from(m), raw & !0x80);
        m.set_row_address_order(RowOrder::TopToBottom);
        assert_eq!(u8::from(m), raw | 0x80);
    }
}
