use posts_api::domain::models::post_id::PostId;
use posts_api::errors::AppError;

fn expected_text(value: u128) -> String {
    format!(
        "{:08x}-{:04x}-{:04x}-{:04x}-{:012x}",
        (value >> 96) & 0xffff_ffff,
        (value >> 80) & 0xffff,
        (value >> 64) & 0xffff,
        (value >> 48) & 0xffff,
        value & 0xffff_ffff_ffff
    )
}

#[test]
fn an_identifier_is_written_hyphenated_in_lower_case() {
    let id = PostId(0xa1a2a3a4b1b2c1c2d1d2d3d4d5d6d7d8);
    assert_eq!(id.to_string(), "a1a2a3a4-b1b2-c1c2-d1d2-d3d4d5d6d7d8");
    assert_eq!(PostId(0).to_string(), "00000000-0000-0000-0000-000000000000");
    assert_eq!(PostId(u128::MAX).to_string(), "ffffffff-ffff-ffff-ffff-ffffffffffff");
    assert_eq!(PostId(1).to_string(), "00000000-0000-0000-0000-000000000001");
}

#[test]
fn the_written_form_has_each_digit_in_its_place() {
    let mut value: u128 = 0x0123_4567_89ab_cdef_fedc_ba98_7654_3210;
    for _ in 0..64 {
        assert_eq!(PostId(value).to_string(), expected_text(value));
        value = value.rotate_left(7) ^ 0x9e37_79b9_7f4a_7c15;
    }
    for k in 0..32 {
        let value = 0xfu128 << (4 * k);
        assert_eq!(PostId(value).to_string(), expected_text(value));
    }
}

#[test]
fn the_hyphenated_form_is_read() {
    assert_eq!(
        PostId::parse("67e55044-10b1-426f-9247-bb680e5fe0c8"),
        Ok(PostId(0x67e5504410b1426f9247bb680e5fe0c8))
    );
    assert_eq!(PostId::parse("00000000-0000-0000-0000-000000000000"), Ok(PostId(0)));
}

#[test]
fn the_other_forms_are_read_too() {
    let id = PostId(0x67e5504410b1426f9247bb680e5fe0c8);
    assert_eq!(PostId::parse("67e5504410b1426f9247bb680e5fe0c8"), Ok(id));
    assert_eq!(PostId::parse("{67e55044-10b1-426f-9247-bb680e5fe0c8}"), Ok(id));
    assert_eq!(PostId::parse("urn:uuid:67e55044-10b1-426f-9247-bb680e5fe0c8"), Ok(id));
    assert_eq!(PostId::parse("67E55044-10B1-426F-9247-BB680E5FE0C8"), Ok(id));
}

#[test]
fn what_is_written_reads_back_as_the_same_identifier() {
    let mut value: u128 = 1;
    for _ in 0..100 {
        let id = PostId(value);
        assert_eq!(PostId::parse(&id.to_string()), Ok(id));
        value = value.wrapping_mul(0x2545_f491_4f6c_dd1d_0000_0000_0000_0001).wrapping_add(0xabcdef);
    }
}

#[test]
fn text_that_is_no_identifier_is_a_bad_request() {
    let complaint = uuid::Uuid::parse_str("not-a-uuid").unwrap_err().to_string();
    assert_eq!(
        PostId::parse("not-a-uuid"),
        Err(AppError::BodyParsingError(format!("UUID parsing failed: {}", complaint)))
    );
    assert!(matches!(PostId::parse(""), Err(AppError::BodyParsingError(_))));
    assert!(matches!(
        PostId::parse("67e55044-10b1-426f-9247-bb680e5fe0c"),
        Err(AppError::BodyParsingError(_))
    ));
    assert!(matches!(
        PostId::parse("67e55044-10b1-426f-9247-bb680e5fe0cg"),
        Err(AppError::BodyParsingError(_))
    ));
    assert!(matches!(
        PostId::parse("67e55044010b1-426f-9247-bb680e5fe0c8"),
        Err(AppError::BodyParsingError(_))
    ));
}

#[test]
fn the_rejection_is_answered_with_400() {
    let error = PostId::parse("42").unwrap_err();
    assert_eq!(error.into_response().status, 400);
}
