use dynarray::option_ext::OptionMutExt;

#[test]
fn replace_swaps_only_when_present() {
    let mut o: Option<u32> = Some(3);
    let previous = OptionMutExt::replace(&mut o, 9);
    assert_eq!(previous, Some(3));
    assert_eq!(o, Some(9));

    let mut n: Option<u32> = None;
    let previous = OptionMutExt::replace(&mut n, 9);
    assert_eq!(previous, None);
    assert_eq!(n, None);
}

#[test]
fn replace_with_calls_only_when_present() {
    let mut o: Option<String> = Some(String::from("old"));
    let previous = o.replace_with(|| String::from("new"));
    assert_eq!(previous, Some(String::from("old")));
    assert_eq!(o, Some(String::from("new")));

    let mut n: Option<String> = None;
    let previous = n.replace_with(|| panic!("must not be called"));
    assert_eq!(previous, None);
    assert_eq!(n, None);
}
