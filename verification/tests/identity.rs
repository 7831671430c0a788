use osu_pp_calc::identity::normalize_identity;

#[test]
fn identity_is_the_name_in_lower_case() {
    assert_eq!(normalize_identity("Rafis"), "rafis");
    assert_eq!(normalize_identity("FREEDOMDIVER"), "freedomdiver");
    assert_eq!(normalize_identity("yeahbennou"), "yeahbennou");
    assert_eq!(normalize_identity(""), "");
    assert_eq!(normalize_identity("A_z-Z 09[]@`{"), "a_z-z 09[]@`{");
}

#[test]
fn identity_keeps_what_is_not_an_ascii_letter() {
    for name in ["ÀÉÎ", "Ünïcödé Name", "名前ABC", "x\u{212A}y"] {
        assert_eq!(normalize_identity(name), name.to_ascii_lowercase());
    }
    assert_eq!(normalize_identity("ÀB"), "Àb");
}
