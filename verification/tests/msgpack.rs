use wasmrs::msgpack::{
    from_slice, newtype_variant_header, read_array_len, read_map_len, read_values,
    struct_variant_header, tuple_variant_header, DecodeError, Token,
};

#[test]
fn decode_fuzz1() {
    let _ = from_slice(&[133, 217, 0, 201, 136, 210]);
}

#[test]
fn decode_fuzz2() {
    let _ = from_slice(&[0x85, 0xd9, 0x0, 0xd9, 0x10, 0xa5, 0xf1, 0x30, 0x85, 0x2c, 0x2c]);
}

#[test]
fn fuzz_inputs_run_out() {
    assert_eq!(from_slice(&[133, 217, 0, 201, 136, 210]).unwrap_err(), DecodeError::EndOfBuffer);
    assert_eq!(
        from_slice(&[0x85, 0xd9, 0x0, 0xd9, 0x10, 0xa5, 0xf1, 0x30, 0x85, 0x2c, 0x2c]).unwrap_err(),
        DecodeError::EndOfBuffer
    );
}

#[test]
fn decode_struct_map() {
    // {"i": 42}
    let tokens = from_slice(&[0x81, 0xa1, b'i', 0x2a]).unwrap();
    assert_eq!(tokens.len(), 3);
    assert!(matches!(tokens[0], Token::MapHeader(1)));
    match &tokens[1] {
        Token::Str(s) => assert_eq!(s, &b"i".to_vec()),
        _ => panic!("expected a string"),
    }
    assert!(matches!(tokens[2], Token::UInt(42)));
}

#[test]
fn decode_scalars() {
    assert!(matches!(from_slice(&[0xc0]).unwrap()[0], Token::Nil));
    assert!(matches!(from_slice(&[0xc3]).unwrap()[0], Token::Bool(true)));
    assert!(matches!(from_slice(&[0xff]).unwrap()[0], Token::Int(-1)));
    assert!(matches!(from_slice(&[0xd0, 0x80]).unwrap()[0], Token::Int(-128)));
    assert!(matches!(from_slice(&[0xd1, 0xff, 0xfe]).unwrap()[0], Token::Int(-2)));
    assert!(matches!(from_slice(&[0xcd, 0x01, 0x00]).unwrap()[0], Token::UInt(256)));
    assert!(matches!(
        from_slice(&[0xcf, 0, 0, 0, 1, 0, 0, 0, 0]).unwrap()[0],
        Token::UInt(0x1_0000_0000)
    ));
    match from_slice(&[0xcb, 0x3f, 0xf0, 0, 0, 0, 0, 0, 0]).unwrap()[0] {
        Token::F64(bits) => assert_eq!(f64::from_bits(bits), 1.0),
        _ => panic!("expected a float"),
    }
    match from_slice(&[0xca, 0x40, 0x00, 0, 0]).unwrap()[0] {
        Token::F32(bits) => assert_eq!(f32::from_bits(bits), 2.0),
        _ => panic!("expected a float"),
    }
}

#[test]
fn decode_bin_ext_and_arrays() {
    match &from_slice(&[0xc4, 2, 7, 8]).unwrap()[0] {
        Token::Bin(b) => assert_eq!(b, &vec![7, 8]),
        _ => panic!("expected binary data"),
    }
    match &from_slice(&[0xd4, 0xfe, 9]).unwrap()[0] {
        Token::Ext(t, d) => {
            assert_eq!(*t, -2);
            assert_eq!(d, &vec![9]);
        }
        _ => panic!("expected an extension"),
    }
    let tokens = from_slice(&[0x92, 0x01, 0x91, 0x02, 0xc0]).unwrap();
    assert_eq!(tokens.len(), 4);
    assert!(matches!(tokens[2], Token::ArrayHeader(1)));
}

#[test]
fn decode_errors() {
    assert_eq!(from_slice(&[]).unwrap_err(), DecodeError::EndOfBuffer);
    assert_eq!(from_slice(&[0xc1]).unwrap_err(), DecodeError::ReservedMarker);
    assert_eq!(from_slice(&[0x92, 0xc1, 0x01]).unwrap_err(), DecodeError::ReservedMarker);
    assert_eq!(from_slice(&[0xa3, b'a']).unwrap_err(), DecodeError::EndOfBuffer);
    assert_eq!(from_slice(&[0x93, 1, 2]).unwrap_err(), DecodeError::EndOfBuffer);
}

#[test]
fn read_values_position() {
    let (tokens, end) = read_values(&[0x01, 0x02, 0x03], 1, 2).unwrap();
    assert_eq!(tokens.len(), 2);
    assert_eq!(end, 3);
}

#[test]
fn container_lengths() {
    assert_eq!(read_array_len(&[0x93]), Ok((3, 1)));
    assert_eq!(read_array_len(&[0xdc, 0x01, 0x00]), Ok((256, 3)));
    assert_eq!(read_array_len(&[0xdd, 0, 0, 0, 5]), Ok((5, 5)));
    assert_eq!(read_array_len(&[0x81]), Err(DecodeError::InvalidType));
    assert_eq!(read_array_len(&[0xdc, 0x01]), Err(DecodeError::EndOfBuffer));
    assert_eq!(read_map_len(&[0x81]), Ok((1, 1)));
    assert_eq!(read_map_len(&[0xde, 0, 2]), Ok((2, 3)));
    assert_eq!(read_map_len(&[]), Err(DecodeError::EndOfBuffer));
}

#[test]
fn variant_headers() {
    assert_eq!(newtype_variant_header(&[0x91, 0x01]), Ok(1));
    assert_eq!(newtype_variant_header(&[0x92]), Err(DecodeError::InvalidNewTypeLength));
    assert_eq!(newtype_variant_header(&[0x90]), Err(DecodeError::InvalidNewTypeLength));
    assert_eq!(newtype_variant_header(&[0x01]), Err(DecodeError::InvalidType));
    assert_eq!(tuple_variant_header(&[0x92], 2), Ok((2, 1)));
    assert_eq!(tuple_variant_header(&[0x92], 3), Err(DecodeError::OutOfBounds));
    assert_eq!(struct_variant_header(&[0x82], 2), Ok((2, 1)));
    assert_eq!(struct_variant_header(&[0x82], 1), Err(DecodeError::OutOfBounds));
    assert_eq!(struct_variant_header(&[0x92], 2), Err(DecodeError::InvalidType));
}
