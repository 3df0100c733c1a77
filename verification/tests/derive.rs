use runrun::derive::{ctx_slice_for, slice_name_of_upper, test_slice_for, tests_slice_name, AttrError};

#[test]
pub fn tests() {}

#[test]
fn slice_name_is_upper_case_type_name() {
    assert_eq!(tests_slice_name("Ctx0"), "TESTS_ON_CTX0");
    assert_eq!(tests_slice_name("InitialCtx"), "TESTS_ON_INITIALCTX");
    assert_eq!(slice_name_of_upper("ABC"), "TESTS_ON_ABC");
}

#[test]
fn test_attribute_checks() {
    assert_eq!(test_slice_for(false, Some("Ctx0")), Err(AttrError::NotAsync));
    assert_eq!(test_slice_for(false, None), Err(AttrError::NotAsync));
    assert_eq!(test_slice_for(true, None), Err(AttrError::NoContext));
    assert_eq!(test_slice_for(true, Some("Ctx1")), Ok("TESTS_ON_CTX1".to_string()));
    assert_eq!(ctx_slice_for(Some("Ctx1")), Ok("TESTS_ON_CTX1".to_string()));
    assert_eq!(ctx_slice_for(None), Err(AttrError::NoImplContext));
    assert_eq!(AttrError::NotAsync.message(), "Non async test fn.");
    assert_eq!(AttrError::NoImplContext.message(), "Can't determine impl ctx.");
    assert_eq!(AttrError::NoContext.message(), "");
}
