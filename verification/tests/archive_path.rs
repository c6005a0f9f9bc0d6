use macho_symbols::archive_path::split_archive_path;

#[test]
fn splits_archive_and_member() {
    let (archive, member) = split_archive_path(b"libfoo.a(bar.o)").unwrap();
    assert_eq!(archive, b"libfoo.a");
    assert_eq!(member, b"bar.o");
}

#[test]
fn plain_path_is_not_split() {
    assert!(split_archive_path(b"bar.o").is_none());
}

#[test]
fn split_is_made_at_the_first_paren() {
    let (archive, member) = split_archive_path(b"a(b)(c)").unwrap();
    assert_eq!(archive, b"a");
    assert_eq!(member, b"b)(c");
}

#[test]
fn unclosed_member_is_not_split() {
    assert!(split_archive_path(b"libfoo.a(bar.o").is_none());
    assert!(split_archive_path(b"libfoo.a(").is_none());
    assert!(split_archive_path(b"").is_none());
}

#[test]
fn empty_member_is_split() {
    let (archive, member) = split_archive_path(b"x()").unwrap();
    assert_eq!(archive, b"x");
    assert_eq!(member, b"");
}
