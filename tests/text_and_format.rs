use ssmp::downloader::{gen_filename, largest_thumbnail, tag_title};
use ssmp::format::Format;
use ssmp::player_state::PlayerState;
use ssmp::request::method_and_procol_from_line;
use ssmp::text::{lines_of, parse_level, parse_usize, push_decimal, string_of, trim};

fn chars(s: &str) -> Vec<char> {
    s.chars().collect()
}

#[test]
fn test_filename() {
    let new_name = gen_filename("Heilutaan / Eurobeat Remix");
    assert_eq!(new_name, "heilutaan - eurobeat remix")
}

#[test]
fn filename_drops_punctuation_and_lowers() {
    assert_eq!(gen_filename("A:B.C!D?E\"F'G\\H"), "abcdefg-h");
    assert_eq!(gen_filename(""), "");
}

#[test]
fn test_method_line_correct() {
    assert_eq!(
        method_and_procol_from_line("GET / HTTP/1.1".to_string()),
        Ok(("GET /".to_string(), "HTTP/1.1".to_string()))
    );
}

#[test]
fn method_line_needs_exactly_three_pieces() {
    assert_eq!(
        method_and_procol_from_line("GET /".to_string()),
        Err("Failed to process method".to_string())
    );
    assert_eq!(
        method_and_procol_from_line("GET  / HTTP/1.1".to_string()),
        Err("Failed to process method".to_string())
    );
    assert_eq!(
        method_and_procol_from_line("POST /add HTTP/1.1\r\n".to_string()),
        Ok(("POST /add".to_string(), "HTTP/1.1\r\n".to_string()))
    );
}

#[test]
fn extensions_name_formats() {
    assert_eq!(Format::extension_to_filetype(".mp3"), Format::MP3);
    assert_eq!(Format::extension_to_filetype(".mp4"), Format::MP4);
    assert_eq!(Format::extension_to_filetype("mp3"), Format::UNSUPPORTED);
    assert_eq!(Format::filetype_to_extension(Format::MP3), Some(".mp3".to_string()));
    assert_eq!(Format::filetype_to_extension(Format::MP4), Some(".mp4".to_string()));
    assert_eq!(Format::filetype_to_extension(Format::UNSUPPORTED), None);
}

#[test]
fn file_names_give_formats() {
    assert_eq!(Format::of_file_name("song.final.mp3"), Format::MP3);
    assert_eq!(Format::of_file_name("clip.mp4"), Format::MP4);
    assert_eq!(Format::of_file_name("notes.txt"), Format::UNSUPPORTED);
    assert_eq!(Format::of_file_name("mp3"), Format::MP3);
}

#[test]
fn numbers_parse_as_std_does() {
    assert_eq!(parse_usize(&chars("42")), Some(42));
    assert_eq!(parse_usize(&chars("+7")), Some(7));
    assert_eq!(parse_usize(&chars("")), None);
    assert_eq!(parse_usize(&chars("+")), None);
    assert_eq!(parse_usize(&chars("4x")), None);
    assert_eq!(parse_usize(&chars("-1")), None);
    assert_eq!(parse_usize(&chars("99999999999999999999999")), None);
    assert_eq!(parse_usize(&chars("18446744073709551615")), Some(usize::MAX));
}

#[test]
fn levels_are_thousandths() {
    assert_eq!(parse_level(&chars("1")), Some(1000));
    assert_eq!(parse_level(&chars("0.5")), Some(500));
    assert_eq!(parse_level(&chars("2.")), Some(2000));
    assert_eq!(parse_level(&chars("1.23456")), Some(1234));
    assert_eq!(parse_level(&chars(".5")), None);
    assert_eq!(parse_level(&chars("1.2.3")), None);
    assert_eq!(parse_level(&chars("abc")), None);
    assert_eq!(parse_level(&chars("")), None);
}

#[test]
fn lines_split_as_std_does() {
    let views = |s: &str| -> Vec<String> { lines_of(&chars(s)).iter().map(|l| string_of(l)).collect() };
    assert_eq!(views("a\nb"), vec!["a", "b"]);
    assert_eq!(views("a\r\nb\n"), vec!["a", "b"]);
    assert_eq!(views("foo\r\nbar\n\nbaz\r"), vec!["foo", "bar", "", "baz\r"]);
    assert_eq!(views(""), Vec::<String>::new());
    assert_eq!(views("\n"), vec![""]);
}

#[test]
fn trimming_drops_white_space_at_both_ends() {
    assert_eq!(string_of(&trim(&chars("  5\r\n"))), "5");
    assert_eq!(string_of(&trim(&chars("\u{3000}a b\t"))), "a b");
    assert_eq!(string_of(&trim(&chars("   "))), "");
}

#[test]
fn decimals_and_clock_text() {
    let mut s = String::from("n=");
    push_decimal(&mut s, 1234567);
    assert_eq!(s, "n=1234567");
    assert_eq!(PlayerState::display_duration(187_000), "3:07");
    assert_eq!(PlayerState::display_duration(59_999), "0:59");
    assert_eq!(PlayerState::display_duration(600_000), "10:00");
}

#[test]
fn snapshot_shows_durations() {
    let mut st = PlayerState::new(1000);
    assert_eq!(st.show_total_duration(), None);
    st.total_duration = Some(65_000);
    st.elapsed_duration = Some(5_000);
    assert_eq!(st.show_total_duration(), Some("1:05".to_string()));
    assert_eq!(st.show_elapsed_duration(), Some("0:05".to_string()));
    assert_eq!(st.speed, 1000);
    assert!(!st.paused);
}

#[test]
fn tag_titles_and_thumbnails() {
    assert_eq!(tag_title("AC/DC \\ Live: Best!"), "AC-DC - Live: Best!");
    assert_eq!(largest_thumbnail(&vec![]), None);
    assert_eq!(largest_thumbnail(&vec![3, 9, 2, 9, 1]), Some(3));
    assert_eq!(largest_thumbnail(&vec![0]), Some(0));
}
