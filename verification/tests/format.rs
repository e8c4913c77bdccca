use level_meter::format::{select_carrier, Carrier, ConfigError, Encoding, SampleFormat};

fn pick(encoding: Encoding, bits: u32) -> Result<Carrier, ConfigError> {
    select_carrier(SampleFormat { encoding, bits })
}

#[test]
fn signed_formats_have_signed_carriers() {
    assert_eq!(pick(Encoding::Signed, 8), Ok(Carrier::I8));
    assert_eq!(pick(Encoding::Signed, 16), Ok(Carrier::I16));
    assert_eq!(pick(Encoding::Signed, 24), Ok(Carrier::I32));
    assert_eq!(pick(Encoding::Signed, 32), Ok(Carrier::I32));
    assert_eq!(pick(Encoding::Signed, 64), Ok(Carrier::I64));
}

#[test]
fn unsigned_formats_have_unsigned_carriers() {
    assert_eq!(pick(Encoding::Unsigned, 8), Ok(Carrier::U8));
    assert_eq!(pick(Encoding::Unsigned, 16), Ok(Carrier::U16));
    assert_eq!(pick(Encoding::Unsigned, 24), Ok(Carrier::U32));
    assert_eq!(pick(Encoding::Unsigned, 32), Ok(Carrier::U32));
    assert_eq!(pick(Encoding::Unsigned, 64), Ok(Carrier::U64));
}

#[test]
fn float_formats_have_float_carriers() {
    assert_eq!(pick(Encoding::Float, 32), Ok(Carrier::F32));
    assert_eq!(pick(Encoding::Float, 64), Ok(Carrier::F64));
}

#[test]
fn other_formats_are_refused() {
    assert_eq!(pick(Encoding::Other, 1), Err(ConfigError::UnsupportedFormat));
    assert_eq!(pick(Encoding::Other, 16), Err(ConfigError::UnsupportedFormat));
    assert_eq!(pick(Encoding::Float, 16), Err(ConfigError::UnsupportedFormat));
    assert_eq!(pick(Encoding::Float, 24), Err(ConfigError::UnsupportedFormat));
    assert_eq!(pick(Encoding::Signed, 48), Err(ConfigError::UnsupportedFormat));
    assert_eq!(pick(Encoding::Unsigned, 48), Err(ConfigError::UnsupportedFormat));
    assert_eq!(pick(Encoding::Signed, 0), Err(ConfigError::UnsupportedFormat));
    assert_eq!(pick(Encoding::Unsigned, 12), Err(ConfigError::UnsupportedFormat));
    assert_eq!(pick(Encoding::Signed, u32::MAX), Err(ConfigError::UnsupportedFormat));
}

#[test]
fn every_width_but_the_listed_ones_is_refused() {
    for bits in 0..=128u32 {
        let signed = pick(Encoding::Signed, bits).is_ok();
        let unsigned = pick(Encoding::Unsigned, bits).is_ok();
        let float = pick(Encoding::Float, bits).is_ok();
        assert_eq!(signed, [8, 16, 24, 32, 64].contains(&bits));
        assert_eq!(unsigned, signed);
        assert_eq!(float, [32, 64].contains(&bits));
        assert!(pick(Encoding::Other, bits).is_err());
    }
}
