use image_check::image_names;

#[test]
fn names_are_read_line_by_line() {
    assert_eq!(
        image_names("\"nginx/nginx\"\n\"postgres:13\"\n\"lscr.io/linuxserver/pihole:latest\"\n"),
        vec!["nginx/nginx", "postgres:13", "lscr.io/linuxserver/pihole:latest"]
    );
}

#[test]
fn an_empty_listing_has_no_names() {
    assert_eq!(image_names(""), Vec::<String>::new());
    assert_eq!(image_names("\n"), vec![""]);
}

#[test]
fn what_follows_the_last_line_break_is_dropped() {
    assert_eq!(image_names("\"nginx\"\n\"redis\""), vec!["nginx"]);
    assert_eq!(image_names("\"nginx\""), Vec::<String>::new());
}

#[test]
fn names_without_quotes_are_kept() {
    assert_eq!(image_names("nginx\n\"redis\n\n"), vec!["nginx", "redis", ""]);
}
