use tonic_buf_build::discovery::decode_ls_files;

#[test]
fn two_files_with_trailing_terminator() {
    let r = decode_ls_files("a.proto\nb.proto\n");
    assert_eq!(r, vec!["a.proto".to_string(), "b.proto".to_string()]);
}

#[test]
fn empty_output_yields_empty_list() {
    let r = decode_ls_files("");
    assert_eq!(r, Vec::<String>::new());
}

#[test]
fn lone_terminator_yields_empty_list() {
    let r = decode_ls_files("\n");
    assert_eq!(r, Vec::<String>::new());
}

#[test]
fn no_trailing_terminator() {
    let r = decode_ls_files("a.proto\nb.proto");
    assert_eq!(r, vec!["a.proto".to_string(), "b.proto".to_string()]);
}

#[test]
fn single_file() {
    let r = decode_ls_files("x/y/z.proto\n");
    assert_eq!(r, vec!["x/y/z.proto".to_string()]);
}

#[test]
fn exactly_one_terminator_is_trimmed() {
    let r = decode_ls_files("a.proto\n\n");
    assert_eq!(r, vec!["a.proto".to_string(), "".to_string()]);
}

#[test]
fn lines_are_kept_verbatim() {
    let r = decode_ls_files(" a b /c\\d \n");
    assert_eq!(r, vec![" a b /c\\d ".to_string()]);
}
