use snes::palette::{SNESPalette, SNESPalette16, SNESPalette256};
use snes::tile::{
    SNESTile, SNESTile1BPP, SNESTile2BPPIntertwined, SNESTile2BPPPlanar, SNESTile3BPPIntertwined,
    SNESTile3BPPPlanar, SNESTile4BPPIntertwined, SNESTile4BPPPlanar, SNESTile8BPPIntertwined,
    SNESTile8BPPPlanar, SNESTileMode7,
};
use snes::{Bgr555, Error, Rgb888};

#[test]
fn test_graphics() {
    let data_1bpp = hex::decode("183c7edbff245a81").unwrap();

    let tile_1bpp_result = SNESTile1BPP::from_data(&data_1bpp);
    assert!(tile_1bpp_result.is_ok());

    let tile_1bpp = tile_1bpp_result.unwrap();
    let expected_1bpp_map: Vec<u8> = [0,0,0,1,1,0,0,0,
                                      0,0,1,1,1,1,0,0,
                                      0,1,1,1,1,1,1,0,
                                      1,1,0,1,1,0,1,1,
                                      1,1,1,1,1,1,1,1,
                                      0,0,1,0,0,1,0,0,
                                      0,1,0,1,1,0,1,0,
                                      1,0,0,0,0,0,0,1].to_vec();

    let colormap_result = tile_1bpp.to_colormap();
    assert!(colormap_result.is_ok());

    let colormap = colormap_result.unwrap();
    assert_eq!(colormap, expected_1bpp_map);

    let map_2bpp: Vec<u8> = [2,2,3,3,3,3,1,1,
                             2,2,2,1,1,1,1,1,
                             2,2,3,2,2,1,1,3,
                             2,2,3,1,2,2,2,2,
                             2,2,3,2,2,1,1,1,
                             2,2,3,1,1,1,1,1,
                             3,3,2,0,0,2,2,2,
                             2,2,2,0,0,0,0,0].to_vec();

    let planar_2bpp_result = SNESTile2BPPPlanar::from_colormap(&map_2bpp);
    assert!(planar_2bpp_result.is_ok());

    let planar_2bpp = planar_2bpp_result.unwrap();
    assert_eq!(planar_2bpp.0.to_vec(), hex::decode("3f1f2730273fc000fce0f9eff8e0e7e0").unwrap());

    let intertwined_2bpp_result = SNESTile2BPPIntertwined::from_colormap(&map_2bpp);
    assert!(intertwined_2bpp_result.is_ok());

    let intertwined_2bpp = intertwined_2bpp_result.unwrap();
    assert_eq!(intertwined_2bpp.0.to_vec(), hex::decode("3ffc1fe027f930ef27f83fe0c0e700e0").unwrap());
}

fn map_2bpp() -> Vec<u8> {
    vec![2,2,3,3,3,3,1,1, 2,2,2,1,1,1,1,1, 2,2,3,2,2,1,1,3, 2,2,3,1,2,2,2,2,
         2,2,3,2,2,1,1,1, 2,2,3,1,1,1,1,1, 3,3,2,0,0,2,2,2, 2,2,2,0,0,0,0,0]
}

fn patterned(modulus: u32) -> Vec<u8> {
    (0..64u32).map(|i| ((i * 7 + 3) % modulus) as u8).collect()
}

fn round_trip<T: SNESTile>(c: &Vec<u8>) -> Vec<u8> {
    T::from_colormap(c).unwrap().to_colormap().unwrap()
}

#[test]
fn colormap_round_trip_every_format() {
    let c2 = patterned(2);
    let c4 = patterned(4);
    let c8 = patterned(8);
    let c16 = patterned(16);
    let c256: Vec<u8> = (0..64u32).map(|i| (i * 37 + 11) as u8).collect();
    assert_eq!(round_trip::<SNESTile1BPP>(&c2), c2);
    assert_eq!(round_trip::<SNESTile2BPPPlanar>(&c4), c4);
    assert_eq!(round_trip::<SNESTile2BPPIntertwined>(&c4), c4);
    assert_eq!(round_trip::<SNESTile3BPPPlanar>(&c8), c8);
    assert_eq!(round_trip::<SNESTile3BPPIntertwined>(&c8), c8);
    assert_eq!(round_trip::<SNESTile4BPPPlanar>(&c16), c16);
    assert_eq!(round_trip::<SNESTile4BPPIntertwined>(&c16), c16);
    assert_eq!(round_trip::<SNESTile8BPPPlanar>(&c16), c16);
    assert_eq!(round_trip::<SNESTile8BPPIntertwined>(&c256), c256);
    assert_eq!(round_trip::<SNESTileMode7>(&c256), c256);
}

#[test]
fn cross_layout_decodes_back() {
    let map = map_2bpp();
    let planar = SNESTile2BPPPlanar::from_data(&hex::decode("3f1f2730273fc000fce0f9eff8e0e7e0").unwrap()).unwrap();
    let inter = SNESTile2BPPIntertwined::from_data(&hex::decode("3ffc1fe027f930ef27f83fe0c0e700e0").unwrap()).unwrap();
    assert_eq!(planar.to_colormap().unwrap(), map);
    assert_eq!(inter.to_colormap().unwrap(), map);
}

#[test]
fn short_colormap_leaves_zeros() {
    let t = SNESTile2BPPPlanar::from_colormap(&[3u8, 1, 2]).unwrap();
    let mut expected = vec![0u8; 64];
    expected[0] = 3;
    expected[1] = 1;
    expected[2] = 2;
    assert_eq!(t.to_colormap().unwrap(), expected);
    assert_eq!(t.0[0], 0b1100_0000);
    assert_eq!(t.0[8], 0b1010_0000);
}

#[test]
fn long_colormap_fails_out_of_bounds() {
    let c = vec![0u8; 65];
    assert_eq!(SNESTile1BPP::from_colormap(&c), Err(Error::OutOfBounds(8, 8)));
}

#[test]
fn colormap_value_error_is_first_bad_value() {
    let mut c = vec![0u8; 64];
    c[5] = 4;
    c[9] = 7;
    assert_eq!(SNESTile2BPPPlanar::from_colormap(&c), Err(Error::InvalidColorIndex(4)));
}

#[test]
fn three_and_four_plane_layouts() {
    let mut t3 = SNESTile3BPPIntertwined::new();
    t3.set_value(0, 1, 7).unwrap();
    let mut e3 = [0u8; 24];
    e3[2] = 0x80;
    e3[3] = 0x80;
    e3[0x11] = 0x80;
    assert_eq!(t3.0, e3);

    let mut p3 = SNESTile3BPPPlanar::new();
    p3.set_value(7, 2, 5).unwrap();
    let mut f3 = [0u8; 24];
    f3[2] = 0x01;
    f3[0x12] = 0x01;
    assert_eq!(p3.0, f3);

    let mut t4 = SNESTile4BPPIntertwined::new();
    t4.set_value(1, 3, 0b1010).unwrap();
    let mut e4 = [0u8; 32];
    e4[7] = 0x40;
    e4[0x17] = 0x40;
    assert_eq!(t4.0, e4);

    let mut p4 = SNESTile4BPPPlanar::new();
    p4.set_value(1, 3, 0b1010).unwrap();
    let mut f4 = [0u8; 32];
    f4[0x0B] = 0x40;
    f4[0x1B] = 0x40;
    assert_eq!(p4.0, f4);
}

#[test]
fn eight_plane_layouts() {
    let mut t = SNESTile8BPPIntertwined::new();
    t.set_value(0, 0, 0xFF).unwrap();
    for o in [0x00usize, 0x01, 0x10, 0x11, 0x20, 0x21, 0x30, 0x31] {
        assert_eq!(t.0[o], 0x80);
    }
    assert_eq!(t.get_value(0, 0), Ok(0xFF));

    let mut p = SNESTile8BPPPlanar::new();
    p.set_value(0, 1, 15).unwrap();
    for o in [0x01usize, 0x09, 0x11, 0x19] {
        assert_eq!(p.0[o], 0x80);
    }
    let mut raw = [0u8; 64];
    raw[0x39] = 0x80;
    let q = SNESTile8BPPPlanar(raw);
    assert_eq!(q.get_value(0, 1), Ok(0x80));
}

#[test]
fn value_range_per_format() {
    assert_eq!(SNESTile1BPP::new().set_value(0, 0, 2), Err(Error::InvalidColorIndex(2)));
    assert_eq!(SNESTile2BPPIntertwined::new().set_value(0, 0, 4), Err(Error::InvalidColorIndex(4)));
    assert_eq!(SNESTile3BPPPlanar::new().set_value(0, 0, 8), Err(Error::InvalidColorIndex(8)));
    assert_eq!(SNESTile4BPPPlanar::new().set_value(0, 0, 16), Err(Error::InvalidColorIndex(16)));
    assert_eq!(SNESTile8BPPPlanar::new().set_value(0, 0, 16), Err(Error::InvalidColorIndex(16)));
    assert_eq!(SNESTile8BPPIntertwined::new().set_value(0, 0, 200), Ok(()));
    assert_eq!(SNESTileMode7::new().set_value(0, 0, 255), Ok(()));
}

#[test]
fn failed_write_changes_nothing() {
    let mut t = SNESTile2BPPPlanar::from_colormap(&map_2bpp()).unwrap();
    let before = t.clone();
    assert!(t.set_value(0, 0, 9).is_err());
    assert_eq!(t, before);
}

#[test]
fn mode7_is_raw_bytes() {
    let data: Vec<u8> = (0..64u8).collect();
    let t = SNESTileMode7::from_data(&data).unwrap();
    assert_eq!(t.get_value(3, 2), Ok(19));
    assert_eq!(t.to_colormap().unwrap(), data);
}

fn check_bounds<T: SNESTile + std::fmt::Debug>(len: usize) {
    let mut t = T::new();
    assert!(matches!(t.get_value(8, 0), Err(Error::OutOfBounds(8, 8))));
    assert!(matches!(t.get_value(0, 8), Err(Error::OutOfBounds(8, 8))));
    assert!(matches!(t.set_value(8, 0, 0), Err(Error::OutOfBounds(8, 8))));
    assert!(matches!(t.set_value(0, 8, 0), Err(Error::OutOfBounds(8, 8))));
    assert!(matches!(t.set_value(9, 12, 0), Err(Error::OutOfBounds(9, 8))));
    let short = vec![0u8; len - 1];
    let long = vec![0u8; len + 1];
    assert!(matches!(T::from_data(&short), Err(Error::DataLengthMismatch(a, b)) if a == len - 1 && b == len));
    assert!(matches!(T::from_data(&long), Err(Error::DataLengthMismatch(a, b)) if a == len + 1 && b == len));
    assert!(T::from_data(&vec![0u8; len]).is_ok());
}

#[test]
fn bounds_and_lengths_every_format() {
    check_bounds::<SNESTile1BPP>(8);
    check_bounds::<SNESTile2BPPPlanar>(16);
    check_bounds::<SNESTile2BPPIntertwined>(16);
    check_bounds::<SNESTile3BPPPlanar>(24);
    check_bounds::<SNESTile3BPPIntertwined>(24);
    check_bounds::<SNESTile4BPPPlanar>(32);
    check_bounds::<SNESTile4BPPIntertwined>(32);
    check_bounds::<SNESTile8BPPPlanar>(64);
    check_bounds::<SNESTile8BPPIntertwined>(64);
    check_bounds::<SNESTileMode7>(64);
}

#[test]
fn palette_lengths() {
    assert_eq!(SNESPalette16::from_data(&[0u8; 31]), Err(Error::DataLengthMismatch(31, 32)));
    assert_eq!(SNESPalette16::from_data(&[0u8; 33]), Err(Error::DataLengthMismatch(33, 32)));
    assert!(SNESPalette256::from_data(&vec![0u8; 511]).is_err());
    assert!(SNESPalette256::from_data(&vec![0u8; 513]).is_err());
    assert!(SNESPalette256::from_data(&vec![0u8; 512]).is_ok());
}

#[test]
fn palette_decodes_little_endian() {
    let mut data = vec![0u8; 32];
    data[0] = 0x1F;
    data[1] = 0x00;
    data[30] = 0x34;
    data[31] = 0x12;
    let p = SNESPalette16::from_data(&data).unwrap();
    assert_eq!(p.get_index(0), Ok(Bgr555(0x001F)));
    assert_eq!(p.get_index(15), Ok(Bgr555(0x1234)));
    assert_eq!(p.get_index(1), Ok(Bgr555(0)));
}

#[test]
fn palette_index_enforcement() {
    let mut p = SNESPalette16::from_data(&[0u8; 32]).unwrap();
    assert_eq!(p.get_index(16), Err(Error::InvalidColorIndex(16)));
    assert_eq!(p.set_index(16, Bgr555(1)), Err(Error::InvalidColorIndex(16)));
    assert_eq!(p.set_index(15, Bgr555(7)), Ok(()));
    assert_eq!(p.get_index(15), Ok(Bgr555(7)));

    let mut q = SNESPalette256::from_data(&vec![0u8; 512]).unwrap();
    assert_eq!(q.set_index(255, Bgr555(9)), Ok(()));
    assert_eq!(q.get_index(255), Ok(Bgr555(9)));
}

#[test]
fn palette_lookup_pipeline() {
    let mut data = vec![0u8; 32];
    for i in 0..16usize {
        data[2 * i] = i as u8;
    }
    let p = SNESPalette16::from_data(&data).unwrap();
    let t = SNESTile2BPPPlanar::from_colormap(&map_2bpp()).unwrap();
    let colors = t.to_bgr555(&p).unwrap();
    let expected: Vec<Bgr555> = map_2bpp().iter().map(|&c| Bgr555(c as u16)).collect();
    assert_eq!(colors, expected);
    let rgb = t.to_rgb888(&p).unwrap();
    assert_eq!(rgb[0], Rgb888(0x10_00_00));
    assert_eq!(rgb[2], Rgb888(0x18_00_00));
}

#[test]
fn palette_lookup_fails_on_first_large_value() {
    let p = SNESPalette16::from_data(&[0u8; 32]).unwrap();
    let mut c = vec![0u8; 64];
    c[3] = 20;
    c[4] = 17;
    let t = SNESTileMode7::from_colormap(&c).unwrap();
    assert_eq!(t.to_bgr555(&p), Err(Error::InvalidColorIndex(20)));
    assert_eq!(t.to_rgb888(&p), Err(Error::InvalidColorIndex(20)));
    let q = SNESPalette256::from_data(&vec![0u8; 512]).unwrap();
    assert!(t.to_bgr555(&q).is_ok());
}

#[test]
fn direct_color_mode_bits() {
    let mut c = vec![0u8; 64];
    c[0] = 0xFF;
    c[1] = 0x07;
    c[2] = 0x38;
    c[3] = 0xC0;
    let t = SNESTileMode7::from_colormap(&c).unwrap();
    let plain = t.direct_color_mode(0).unwrap();
    assert_eq!(plain[0], Bgr555::new(14, 14, 12));
    assert_eq!(plain[1], Bgr555::new(14, 0, 0));
    assert_eq!(plain[2], Bgr555::new(0, 14, 0));
    assert_eq!(plain[3], Bgr555::new(0, 0, 12));
    assert_eq!(plain[4], Bgr555(0));
    let lit = t.direct_color_mode(7).unwrap();
    assert_eq!(lit[0], Bgr555::new(15, 15, 13));
    assert_eq!(lit[4], Bgr555::new(1, 1, 1));
    let blue_only = t.direct_color_mode(4).unwrap();
    assert_eq!(blue_only[4], Bgr555::new(0, 0, 1));
}

#[test]
fn color15_round_trip_all_channel_values() {
    for v in 0..32u8 {
        let c = Bgr555::new(v, v, v);
        assert_eq!(c.as_rgb888().as_bgr555(), c);
        let rgb: Rgb888 = c.into();
        let back: Bgr555 = rgb.into();
        assert_eq!(back, c);
    }
}

#[test]
fn color24_round_trip_is_lossy() {
    let c = Rgb888::new(0x13, 0x27, 0xFF);
    let back = c.as_bgr555().as_rgb888();
    assert_eq!(back, Rgb888::new(0x10, 0x20, 0xF8));
    assert_ne!(back, c);
}

#[test]
fn color_channels() {
    let c = Rgb888::new(0x12, 0x34, 0x56);
    assert_eq!(c, Rgb888(0x123456));
    assert_eq!((c.get_red(), c.get_green(), c.get_blue()), (0x12, 0x34, 0x56));
    let mut d = Rgb888(0xAB00_0000);
    d.set_green(0x77);
    assert_eq!(d, Rgb888(0xAB00_7700));

    let b = Bgr555::new(1, 2, 3);
    assert_eq!(b, Bgr555(1 | (2 << 5) | (3 << 10)));
    assert_eq!((b.get_red(), b.get_green(), b.get_blue()), (1, 2, 3));
    let mut e = Bgr555(0x8000);
    e.set_red(0x3F);
    assert_eq!(e, Bgr555(0x801F));
    e.set_blue(2);
    assert_eq!(e.get_blue(), 2);
    assert_eq!(e.get_red(), 31);
    assert_eq!(Bgr555::new(31, 31, 31).as_rgb888(), Rgb888(0xF8F8F8));
    assert_eq!(Rgb888(0xFFFFFF).as_bgr555(), Bgr555(0x7FFF));
    assert_eq!(Rgb888::from(7u32), Rgb888(7));
    assert_eq!(Bgr555::from(9u16), Bgr555(9));
}
