use raycast::utils::parse_pair;
use raycast::utils::split_at_separator;

#[test]
fn test_parse_pair() {
    assert_eq!(parse_pair::<f32>("", ','), None);
    assert_eq!(parse_pair::<f32>("1.2", ','), None);
    assert_eq!(parse_pair::<f32>(",", ','), None);
    assert_eq!(parse_pair::<f32>(",3.7", ','), None);
    assert_eq!(parse_pair::<i32>("400x800", 'x'), Some((400, 800)));
    assert_eq!(
        parse_pair::<f64>("1.24,-0.6048", ','),
        Some((1.24, -0.6048))
    );
    assert_eq!(parse_pair::<f32>("3.14,25.1", ','), Some((3.14, 25.1)));
}

#[test]
fn parse_pair_usize_size_argument() {
    assert_eq!(parse_pair::<usize>("800x600", 'x'), Some((800, 600)));
    assert_eq!(parse_pair::<usize>("800x", 'x'), None);
    assert_eq!(parse_pair::<usize>("x600", 'x'), None);
    assert_eq!(parse_pair::<usize>("800", 'x'), None);
    assert_eq!(parse_pair::<usize>("800x-600", 'x'), None);
}

#[test]
fn split_at_first_separator_only() {
    assert_eq!(split_at_separator("a,b,c", ','), Some(("a", "b,c")));
    assert_eq!(split_at_separator(",tail", ','), Some(("", "tail")));
    assert_eq!(split_at_separator("head,", ','), Some(("head", "")));
    assert_eq!(split_at_separator(",", ','), Some(("", "")));
}

#[test]
fn split_without_separator_is_none() {
    assert_eq!(split_at_separator("", 'x'), None);
    assert_eq!(split_at_separator("abc", 'x'), None);
}

#[test]
fn split_handles_multibyte_text() {
    assert_eq!(split_at_separator("äöü,ß", ','), Some(("äöü", "ß")));
    assert_eq!(split_at_separator("a→b", '→'), Some(("a", "b")));
}
