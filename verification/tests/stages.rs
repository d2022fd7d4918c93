use gd_save_explorer::base64_codec;
use gd_save_explorer::error::{stage_result, ErrorKind};
use gd_save_explorer::gzip_codec;
use gd_save_explorer::padding;
use gd_save_explorer::xml_format;
use gd_save_explorer::xor;
use gd_save_explorer::xor::XOR_KEY;

#[test]
fn xor_key_is_eleven() {
    assert_eq!(XOR_KEY, 11);
}

#[test]
fn mask_xors_every_byte() {
    assert_eq!(xor::mask(&[0, 1, 11, 255, 0x41], 11), vec![11, 10, 0, 244, 0x4a]);
}

#[test]
fn mask_of_nothing_is_nothing() {
    assert_eq!(xor::mask(&[], 11), Vec::<u8>::new());
}

#[test]
fn mask_with_zero_key_copies() {
    assert_eq!(xor::mask(&[7, 0, 200], 0), vec![7, 0, 200]);
}

#[test]
fn mask_twice_restores() {
    let bytes: Vec<u8> = (0..=255).collect();
    for key in [0u8, 1, 11, 128, 255] {
        assert_eq!(xor::mask(&xor::mask(&bytes, key), key), bytes);
    }
}

#[test]
fn mask_in_place_agrees_with_mask() {
    let bytes: Vec<u8> = (0..=255).collect();
    let mut in_place = bytes.clone();
    xor::mask_in_place(&mut in_place, 11);
    assert_eq!(in_place, xor::mask(&bytes, 11));
    xor::mask_in_place(&mut in_place, 11);
    assert_eq!(in_place, bytes);
}

#[test]
fn trim_removes_the_trailing_run_only() {
    let mut v = vec![1, 0, 2, 0, 0, 0];
    padding::trim(&mut v);
    assert_eq!(v, vec![1, 0, 2]);
}

#[test]
fn trim_keeps_leading_and_interior_zeros() {
    let mut v = vec![0, 0, 5, 0, 6];
    padding::trim(&mut v);
    assert_eq!(v, vec![0, 0, 5, 0, 6]);
}

#[test]
fn trim_of_zeros_is_empty() {
    let mut v = vec![0, 0, 0];
    padding::trim(&mut v);
    assert_eq!(v, Vec::<u8>::new());
}

#[test]
fn trim_of_empty_is_empty() {
    let mut v: Vec<u8> = Vec::new();
    padding::trim(&mut v);
    assert_eq!(v, Vec::<u8>::new());
}

#[test]
fn trim_is_idempotent() {
    let mut once = vec![9, 0, 8, 0, 0];
    padding::trim(&mut once);
    let mut twice = once.clone();
    padding::trim(&mut twice);
    assert_eq!(once, vec![9, 0, 8]);
    assert_eq!(twice, once);
}

#[test]
fn base64_encodes_with_padding() {
    assert_eq!(base64_codec::encode(b""), b"".to_vec());
    assert_eq!(base64_codec::encode(b"f"), b"Zg==".to_vec());
    assert_eq!(base64_codec::encode(b"fo"), b"Zm8=".to_vec());
    assert_eq!(base64_codec::encode(b"foo"), b"Zm9v".to_vec());
    assert_eq!(base64_codec::encode(b"hello"), b"aGVsbG8=".to_vec());
}

#[test]
fn base64_uses_the_url_safe_alphabet() {
    assert_eq!(base64_codec::encode(&[0xfb, 0xff]), b"-_8=".to_vec());
    assert_eq!(base64_codec::decode(b"-_8=").unwrap(), vec![0xfb, 0xff]);
    assert_eq!(base64_codec::decode(b"+/8=").unwrap_err().kind, ErrorKind::InvalidEncoding);
}

#[test]
fn base64_length_is_four_per_three_begun() {
    for n in 0..50usize {
        let data = vec![0xa5u8; n];
        assert_eq!(base64_codec::encode(&data).len(), 4 * ((n + 2) / 3));
    }
}

#[test]
fn base64_text_holds_only_symbols() {
    let data: Vec<u8> = (0..=255).collect();
    for b in base64_codec::encode(&data) {
        assert!(b.is_ascii_alphanumeric() || b == b'-' || b == b'_' || b == b'=');
    }
}

#[test]
fn base64_round_trip() {
    let data: Vec<u8> = (0..=255).collect();
    for n in [0usize, 1, 2, 3, 4, 100, 256] {
        let text = base64_codec::encode(&data[..n]);
        assert_eq!(base64_codec::decode(&text).unwrap(), data[..n].to_vec());
    }
}

#[test]
fn base64_refuses_a_foreign_byte() {
    let e = base64_codec::decode(b"aGVs!G8=").unwrap_err();
    assert_eq!(e.kind, ErrorKind::InvalidEncoding);
    assert!(!e.detail.is_empty());
}

#[test]
fn base64_refuses_a_trailing_nul() {
    assert_eq!(base64_codec::decode(b"aGVsbG8=\0").unwrap_err().kind, ErrorKind::InvalidEncoding);
}

#[test]
fn base64_refuses_missing_padding() {
    assert_eq!(base64_codec::decode(b"aGVsbG8").unwrap_err().kind, ErrorKind::InvalidEncoding);
}

#[test]
fn base64_fits_every_length_but_the_top_quarter() {
    assert!(base64_codec::fits(0));
    assert!(base64_codec::fits(1 << 20));
    assert!(base64_codec::fits(usize::MAX / 4 * 3));
    assert!(!base64_codec::fits(usize::MAX / 4 * 3 + 1));
    assert!(!base64_codec::fits(usize::MAX));
}

#[test]
fn gzip_round_trip() {
    for data in [&b""[..], &b"a"[..], &b"<a>1</a>"[..], &[0u8; 1000][..]] {
        let stream = gzip_codec::compress(data).unwrap();
        assert_eq!(gzip_codec::decompress(&stream).unwrap(), data.to_vec());
    }
}

#[test]
fn gzip_stream_is_framed() {
    let stream = gzip_codec::compress(b"hello hello hello").unwrap();
    assert_eq!(&stream[..3], &[0x1f, 0x8b, 8]);
    assert_ne!(stream, b"hello hello hello".to_vec());
}

#[test]
fn gzip_is_the_same_every_time() {
    let data = b"the same bytes give the same stream";
    assert_eq!(gzip_codec::compress(data).unwrap(), gzip_codec::compress(data).unwrap());
}

#[test]
fn gzip_output_grows_as_needed() {
    let data = vec![b'x'; 3_000_000];
    let stream = gzip_codec::compress(&data).unwrap();
    assert!(stream.len() < 100_000);
    assert_eq!(gzip_codec::decompress(&stream).unwrap(), data);
}

#[test]
fn gzip_refuses_a_truncated_stream() {
    let stream = gzip_codec::compress(b"<a>some text that will be cut</a>").unwrap();
    for cut in [0usize, 1, 5, 10, stream.len() / 2, stream.len() - 1] {
        let e = gzip_codec::decompress(&stream[..cut]).unwrap_err();
        assert_eq!(e.kind, ErrorKind::CorruptStream);
    }
}

#[test]
fn gzip_refuses_a_wrong_header() {
    let e = gzip_codec::decompress(b"this is no gzip stream at all").unwrap_err();
    assert_eq!(e.kind, ErrorKind::CorruptStream);
    assert!(!e.detail.is_empty());
}

#[test]
fn gzip_refuses_a_wrong_checksum() {
    let mut stream = gzip_codec::compress(b"checked").unwrap();
    let n = stream.len();
    stream[n - 8] ^= 0xff;
    assert_eq!(gzip_codec::decompress(&stream).unwrap_err().kind, ErrorKind::CorruptStream);
}

#[test]
fn canonicalize_a_small_document() {
    assert_eq!(
        xml_format::canonicalize(b"<a>1</a>").unwrap(),
        "<?xml version=\"1.0\" encoding=\"UTF-8\"?>\n<a>1</a>"
    );
}

#[test]
fn canonicalize_indents_by_depth() {
    assert_eq!(
        xml_format::canonicalize(b"<a><b><c>x</c></b><d>y</d></a>").unwrap(),
        "<?xml version=\"1.0\" encoding=\"UTF-8\"?>\n<a>\n  <b>\n    <c>x</c>\n  </b>\n  <d>y</d>\n</a>"
    );
}

#[test]
fn canonicalize_drops_layout_whitespace() {
    assert_eq!(
        xml_format::canonicalize(b"<a>\n\n      <b>x</b>\n</a>\n").unwrap(),
        xml_format::canonicalize(b"<a><b>x</b></a>").unwrap()
    );
}

#[test]
fn canonicalize_keeps_empty_elements_open() {
    assert_eq!(
        xml_format::canonicalize(b"<a><b/><c></c></a>").unwrap(),
        "<?xml version=\"1.0\" encoding=\"UTF-8\"?>\n<a>\n  <b>\n  </b>\n  <c>\n  </c>\n</a>"
    );
}

#[test]
fn canonicalize_keeps_comments_unpadded() {
    assert_eq!(
        xml_format::canonicalize(b"<a><!--note--><b>x</b></a>").unwrap(),
        "<?xml version=\"1.0\" encoding=\"UTF-8\"?>\n<a>\n  <!--note-->\n  <b>x</b>\n</a>"
    );
}

#[test]
fn canonicalize_keeps_attributes_in_order() {
    assert_eq!(
        xml_format::canonicalize(b"<a z=\"1\" y=\"two\" x=\"&lt;3\"></a>").unwrap(),
        "<?xml version=\"1.0\" encoding=\"UTF-8\"?>\n<a z=\"1\" y=\"two\" x=\"&lt;3\">\n</a>"
    );
}

#[test]
fn canonicalize_refuses_a_mismatched_close_tag() {
    let e = xml_format::canonicalize(b"<a><b></a>").unwrap_err();
    assert_eq!(e.kind, ErrorKind::MalformedXml);
    assert!(!e.detail.is_empty());
}

#[test]
fn canonicalize_refuses_an_unclosed_tag() {
    assert_eq!(xml_format::canonicalize(b"<a><b>").unwrap_err().kind, ErrorKind::MalformedXml);
}

#[test]
fn canonicalize_refuses_an_invalid_character_reference() {
    assert_eq!(
        xml_format::canonicalize(b"<a>&#xZZ;</a>").unwrap_err().kind,
        ErrorKind::MalformedXml
    );
}

#[test]
fn canonicalize_refuses_nothing_at_all() {
    assert_eq!(xml_format::canonicalize(b"").unwrap_err().kind, ErrorKind::MalformedXml);
}

#[test]
fn canonicalize_refuses_bytes_that_are_not_text() {
    assert_eq!(
        xml_format::canonicalize(&[b'<', b'a', b'>', 0xff, 0xfe, b'<', b'/', b'a', b'>'])
            .unwrap_err()
            .kind,
        ErrorKind::MalformedXml
    );
}

#[test]
fn stage_result_passes_a_value_through() {
    let r = stage_result(Ok::<u32, String>(7), ErrorKind::CorruptStream);
    assert_eq!(r.unwrap(), 7);
}

#[test]
fn stage_result_tags_a_failure() {
    for kind in [
        ErrorKind::InvalidEncoding,
        ErrorKind::CorruptStream,
        ErrorKind::MalformedXml,
        ErrorKind::IoFailure,
    ] {
        let e = stage_result(Err::<u32, String>(String::from("why")), kind).unwrap_err();
        assert_eq!(e.kind, kind);
        assert_eq!(e.detail, "why");
    }
}

#[test]
fn gzip_stream_begins_with_the_header() {
    for data in [&b""[..], &b"abc"[..]] {
        let stream = gzip_codec::compress(data).unwrap();
        assert!(stream.len() >= 18);
        assert_eq!(&stream[..10], &[0x1f, 0x8b, 8, 0, 0, 0, 0, 0, 0, 255]);
    }
}

#[test]
fn gzip_refuses_a_stream_without_the_header() {
    let stream = gzip_codec::compress(b"abc").unwrap();
    for at in 0..3 {
        let mut broken = stream.clone();
        broken[at] ^= 1;
        assert_eq!(gzip_codec::decompress(&broken).unwrap_err().kind, ErrorKind::CorruptStream);
    }
    assert_eq!(gzip_codec::decompress(&stream[..9]).unwrap_err().kind, ErrorKind::CorruptStream);
}

#[test]
fn base64_refuses_a_length_that_is_no_multiple_of_four() {
    for text in [&b"a"[..], &b"aG"[..], &b"aGV"[..], &b"aGVsb"[..], &b"aGVsbG8=a"[..], &b"Zg="[..]] {
        assert_eq!(base64_codec::decode(text).unwrap_err().kind, ErrorKind::InvalidEncoding);
    }
}

#[test]
fn base64_refuses_padding_that_is_not_at_the_end() {
    for text in [
        &b"===="[..],
        &b"a==="[..],
        &b"=abc"[..],
        &b"ab=c"[..],
        &b"Zg==Zm9v"[..],
        &b"Zm8=Zm9v"[..],
        &b"Zm9vZg=v"[..],
        &b"Zm9v===="[..],
    ] {
        assert_eq!(base64_codec::decode(text).unwrap_err().kind, ErrorKind::InvalidEncoding);
    }
}

#[test]
fn base64_text_pads_at_the_end_only() {
    let data: Vec<u8> = (0..=255).collect();
    for n in 0..40usize {
        let text = base64_codec::encode(&data[..n]);
        assert_eq!(text.len() % 4, 0);
        let signs = text.iter().filter(|b| **b == b'=').count();
        assert_eq!(signs, (3 - n % 3) % 3);
        assert!(text[..text.len() - signs].iter().all(|b| *b != b'='));
    }
}

#[test]
fn gzip_refuses_every_shorter_beginning() {
    let long: Vec<u8> = (0..100_000u32).map(|i| (i * 7 % 251) as u8).collect();
    for data in [&b""[..], &b"<a>1</a>"[..], &long[..]] {
        let stream = gzip_codec::compress(data).unwrap();
        let step = if stream.len() > 2000 { 97 } else { 1 };
        let mut n = 0;
        while n < stream.len() {
            let e = gzip_codec::decompress(&stream[..n]).unwrap_err();
            assert_eq!(e.kind, ErrorKind::CorruptStream);
            n += step;
        }
        for n in stream.len().saturating_sub(20)..stream.len() {
            assert_eq!(gzip_codec::decompress(&stream[..n]).unwrap_err().kind, ErrorKind::CorruptStream);
        }
    }
}

#[test]
fn gzip_refuses_a_stream_too_short_for_its_frame() {
    let bytes = [0x1f, 0x8b, 8, 0, 0, 0, 0, 0, 0, 255, 3, 0, 0, 0, 0, 0, 0];
    assert_eq!(bytes.len(), 17);
    assert_eq!(gzip_codec::decompress(&bytes).unwrap_err().kind, ErrorKind::CorruptStream);
}

#[test]
fn canonicalize_stops_at_the_first_failure() {
    // The reader fails after it has handed out the start of the document.
    let e = xml_format::canonicalize(b"<a><b>text</b><c></a>").unwrap_err();
    assert_eq!(e.kind, ErrorKind::MalformedXml);
    let e = xml_format::canonicalize(b"<a><b>text</b><c>more").unwrap_err();
    assert_eq!(e.kind, ErrorKind::MalformedXml);
}

#[test]
fn canonicalize_takes_the_events_in_order() {
    assert_eq!(
        xml_format::canonicalize(b"<r><a>1</a><!--c--><b>2</b><a>3</a></r>").unwrap(),
        "<?xml version=\"1.0\" encoding=\"UTF-8\"?>\n<r>\n  <a>1</a>\n  <!--c-->\n  <b>2</b>\n  <a>3</a>\n</r>"
    );
}
