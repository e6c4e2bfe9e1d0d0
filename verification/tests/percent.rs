use pseudolocalize::crop_string;

#[test]
fn same_as_base_string() {
    let s = crop_string(10, "🤗洗い熊のJérôme😃🙃", 100);
    assert_eq!(s, "🤗洗い熊のJérôm");
}

#[test]
fn half_of_base_string() {
    let s = crop_string(10, "🤗洗い熊のJérôme😃🙃", 50);
    assert_eq!(s, "🤗洗い熊の");
}

#[test]
fn twice_base_string() {
    let s = crop_string(10, "🤗洗い熊のJérôme😃🙃", 200);
    assert_eq!(s, "🤗洗い熊のJérôme😃🙃🤗洗い熊のJé");
}
