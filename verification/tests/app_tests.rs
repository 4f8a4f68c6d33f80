#[test]
fn app_name_constant_exists() {
    assert_eq!("SnapParse", snapparse::APP_NAME);
}
