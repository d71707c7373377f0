use label_pdf::adapter::ContentKind;
use label_pdf::content::{
    raster_input, strip_data_uri_prefix, LabelContent, MaterializedInput, SourceEncoding,
};
use label_pdf::error::{ErrorKind, LabelError};

fn raster(payload: &str) -> LabelContent {
    LabelContent::Raster { payload: payload.to_string(), encoding: SourceEncoding::Base64 }
}

#[test]
fn prefix_is_stripped_only_from_the_front() {
    assert_eq!(strip_data_uri_prefix("data:image/png;base64,AAAA"), "AAAA");
    assert_eq!(strip_data_uri_prefix("AAAA"), "AAAA");
    assert_eq!(strip_data_uri_prefix(""), "");
    assert_eq!(strip_data_uri_prefix("data:image/png;base64,"), "");
    assert_eq!(strip_data_uri_prefix("data:image/png;base64"), "data:image/png;base64");
    assert_eq!(
        strip_data_uri_prefix("xdata:image/png;base64,AAAA"),
        "xdata:image/png;base64,AAAA"
    );
    assert_eq!(
        strip_data_uri_prefix("data:image/jpeg;base64,AAAA"),
        "data:image/jpeg;base64,AAAA"
    );
    assert_eq!(
        strip_data_uri_prefix("data:image/png;base64,data:image/png;base64,AA"),
        "data:image/png;base64,AA"
    );
}

#[test]
fn prefix_stripping_counts_characters_not_bytes() {
    assert_eq!(strip_data_uri_prefix("dätä:image/png;base64,AAAA"), "dätä:image/png;base64,AAAA");
    assert_eq!(strip_data_uri_prefix("data:image/png;base64,äö"), "äö");
}

#[test]
fn markup_is_written_verbatim() {
    let content = LabelContent::Markup("<h1>Größe &amp; Preis</h1>\n".to_string());
    assert_eq!(content.kind(), ContentKind::Markup);
    let input = content.materialize().expect("markup always materialises");
    assert_eq!(input.bytes, "<h1>Größe &amp; Preis</h1>\n".as_bytes().to_vec());
    assert_eq!(input.suffix, ".html");
}

#[test]
fn empty_markup_is_an_empty_file() {
    let input = LabelContent::Markup(String::new()).materialize().expect("markup");
    assert_eq!(input, MaterializedInput { bytes: Vec::new(), suffix: ".html".to_string() });
}

#[test]
fn raster_payload_is_decoded() {
    let content = raster("aGVsbG8=");
    assert_eq!(content.kind(), ContentKind::Raster);
    let input = content.materialize().expect("valid base64");
    assert_eq!(input.bytes, b"hello".to_vec());
    assert_eq!(input.suffix, ".png");
}

#[test]
fn raster_payload_with_prefix_decodes_to_the_same_bytes() {
    let bare = raster("iVBORw0KGgo=").materialize().expect("valid base64");
    let prefixed =
        raster("data:image/png;base64,iVBORw0KGgo=").materialize().expect("valid base64");
    assert_eq!(bare, prefixed);
    assert_eq!(bare.bytes, vec![0x89, 0x50, 0x4E, 0x47, 0x0D, 0x0A, 0x1A, 0x0A]);
}

#[test]
fn empty_raster_payload_is_an_empty_image() {
    let input = raster("data:image/png;base64,").materialize().expect("empty payload decodes");
    assert_eq!(input.bytes, Vec::<u8>::new());
}

#[test]
#[allow(deprecated)]
fn invalid_base64_is_a_validation_error_with_the_decoder_message() {
    let error = raster("not base64!").materialize().expect_err("invalid base64");
    let expected = base64::decode("not base64!").expect_err("invalid").to_string();
    assert_eq!(error, LabelError::InvalidEncoding { detail: expected.clone() });
    assert_eq!(error.kind(), ErrorKind::Validation);
    assert_eq!(error.message(), format!("Failed to decode base64 image: {}", expected));
}

#[test]
fn invalid_base64_after_prefix_fails_like_the_bare_payload() {
    let bare = raster("a").materialize().expect_err("one symbol is no base64");
    let prefixed = raster("data:image/png;base64,a").materialize().expect_err("nor here");
    assert_eq!(bare, prefixed);
}

#[test]
fn decoded_result_becomes_input_or_error() {
    assert_eq!(
        raster_input(Ok(vec![1, 2, 3])),
        Ok(MaterializedInput { bytes: vec![1, 2, 3], suffix: ".png".to_string() })
    );
    assert_eq!(
        raster_input(Err("bad".to_string())),
        Err(LabelError::InvalidEncoding { detail: "bad".to_string() })
    );
}
