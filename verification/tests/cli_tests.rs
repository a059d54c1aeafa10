use partstamp::cli::path_argument;

#[test]
fn takes_first_argument_after_program_name() {
    let args = vec![String::from("partstamp"), String::from("cube.stl")];
    assert_eq!(path_argument(&args).as_deref(), Some("cube.stl"));
}

#[test]
fn ignores_arguments_after_the_path() {
    let args = vec![
        String::from("partstamp"),
        String::from("a.stl"),
        String::from("b.stl"),
    ];
    assert_eq!(path_argument(&args).as_deref(), Some("a.stl"));
}

#[test]
fn no_path_without_arguments() {
    let args = vec![String::from("partstamp")];
    assert_eq!(path_argument(&args), None);
    assert_eq!(path_argument(&Vec::new()), None);
}
