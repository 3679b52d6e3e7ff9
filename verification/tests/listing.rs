use dirlist::config::Config;
use dirlist::entry::{EntryMeta, EntryRecord};
use dirlist::render::{
    render_heading, render_row, render_separator, render_size_cell, render_table,
};

fn bare() -> Config {
    Config { all: false, created: false, size: false, updated: false }
}

fn file_entry(name: &str) -> EntryRecord {
    EntryRecord {
        path: String::from(name),
        is_dir: Some(false),
        meta: Some(EntryMeta { size: 0, created_secs: 0, updated_secs: 0 }),
    }
}

#[test]
fn heading_name_only() {
    let cfg = bare();
    assert_eq!(render_heading(cfg), "|         Name         |");
    assert_eq!(render_separator(cfg), "+----------------------+");
}

#[test]
fn heading_all_columns() {
    let cfg = Config { all: true, created: false, size: false, updated: false };
    assert_eq!(
        render_heading(cfg),
        "|         Name         |     Size     |        Created       |        Updated       |"
    );
    assert_eq!(
        render_separator(cfg),
        "+----------------------+--------------+----------------------+----------------------+"
    );
}

#[test]
fn separator_is_as_wide_as_the_heading() {
    let mut flags = Vec::new();
    for bits in 0..16u32 {
        flags.push(Config {
            all: bits & 1 != 0,
            created: bits & 2 != 0,
            size: bits & 4 != 0,
            updated: bits & 8 != 0,
        });
    }
    for cfg in flags {
        assert_eq!(render_heading(cfg).len(), render_separator(cfg).len());
    }
}

#[test]
fn all_flag_matches_individual_flags() {
    let with_all = Config { all: true, created: false, size: false, updated: false };
    let with_each = Config { all: false, created: true, size: true, updated: true };
    assert_eq!(render_heading(with_all), render_heading(with_each));
    assert_eq!(render_separator(with_all), render_separator(with_each));
    let entries = vec![file_entry("a"), file_entry("b")];
    assert_eq!(
        render_table(&entries, with_all, false),
        render_table(&entries, with_each, false)
    );
}

#[test]
fn bare_listing_has_heading_separator_and_a_row_per_entry() {
    let entries = vec![file_entry("a"), file_entry("b"), file_entry("c")];
    let lines = render_table(&entries, bare(), false);
    assert_eq!(lines.len(), 5);
    assert_eq!(lines[0], "|         Name         |");
    assert_eq!(lines[1], "+----------------------+");
    for line in &lines[2..] {
        assert_eq!(line.len(), 24);
        assert!(line.starts_with("| "));
        assert!(line.ends_with(" |"));
    }
}

#[test]
fn rows_come_in_reverse_enumeration_order() {
    let entries = vec![file_entry("a"), file_entry("b"), file_entry("c")];
    let lines = render_table(&entries, bare(), false);
    assert_eq!(lines[2], "| c                    |");
    assert_eq!(lines[3], "| b                    |");
    assert_eq!(lines[4], "| a                    |");
}

#[test]
fn size_cell_is_right_justified_with_unit() {
    assert_eq!(render_size_cell(1234), "       1234 B |");
    assert_eq!(render_size_cell(0), "          0 B |");
    assert_eq!(render_size_cell(u64::MAX), " 18446744073709551615 B |");
}

#[test]
fn size_column_in_a_row() {
    let mut e = file_entry("f");
    e.meta = Some(EntryMeta { size: 1234, created_secs: 0, updated_secs: 0 });
    let cfg = Config { all: false, created: false, size: true, updated: false };
    let lines = render_table(&vec![e], cfg, false);
    assert_eq!(lines[2], "| f                    |       1234 B |");
}

#[test]
fn directory_rows_carry_the_color_marker() {
    let dir = EntryRecord {
        path: String::from("d"),
        is_dir: Some(true),
        meta: None,
    };
    let file = file_entry("f");
    let lines = render_table(&vec![file, dir], bare(), true);
    assert_eq!(lines.len(), 4);
    assert_eq!(lines[2], "| \u{1b}[34md                   \u{1b}[0m |");
    assert_eq!(lines[3], "| f                    |");
    assert!(lines[2].contains('\u{1b}'));
    assert!(!lines[3].contains('\u{1b}'));
}

#[test]
fn no_color_marker_when_color_is_off() {
    let dir = EntryRecord {
        path: String::from("d"),
        is_dir: Some(true),
        meta: None,
    };
    let lines = render_table(&vec![dir], bare(), false);
    assert_eq!(lines[2], "| d                    |");
}

#[test]
fn created_column_renders_the_epoch() {
    let cfg = Config { all: false, created: true, size: false, updated: false };
    let e = file_entry("x");
    let lines = render_table(&vec![e], cfg, false);
    assert_eq!(lines[2], "| x                    |  1970-01-01 00:00:00 |");
}

#[test]
fn created_column_renders_a_known_date() {
    let cfg = Config { all: false, created: true, size: false, updated: false };
    let mut e = file_entry("x");
    e.meta = Some(EntryMeta { size: 0, created_secs: 1431648000, updated_secs: 0 });
    let lines = render_table(&vec![e], cfg, false);
    assert_eq!(lines[2], "| x                    |  2015-05-15 00:00:00 |");
}

#[test]
fn time_columns_are_colored_green_and_yellow() {
    let cfg = Config { all: false, created: true, size: false, updated: true };
    let e = file_entry("x");
    let lines = render_table(&vec![e], cfg, true);
    assert_eq!(
        lines[2],
        "| x                    | \u{1b}[32m 1970-01-01 00:00:00\u{1b}[0m | \u{1b}[33m 1970-01-01 00:00:00\u{1b}[0m |"
    );
}

#[test]
fn all_columns_together() {
    let cfg = Config { all: true, created: false, size: false, updated: false };
    let mut e = file_entry("x");
    e.meta = Some(EntryMeta { size: 7, created_secs: 0, updated_secs: 86400 });
    let lines = render_table(&vec![e], cfg, false);
    assert_eq!(
        lines[2],
        "| x                    |          7 B |  1970-01-01 00:00:00 |  1970-01-02 00:00:00 |"
    );
}

#[test]
fn unknown_file_type_drops_the_row() {
    let mut e = file_entry("x");
    e.is_dir = None;
    let lines = render_table(&vec![e, file_entry("y")], bare(), false);
    assert_eq!(lines.len(), 3);
    assert_eq!(lines[2], "| y                    |");
}

#[test]
fn missing_metadata_drops_the_row_only_when_a_column_needs_it() {
    let mut e = file_entry("x");
    e.meta = None;
    let cfg = Config { all: false, created: false, size: true, updated: false };
    let lines = render_table(&vec![e], cfg, false);
    assert_eq!(lines.len(), 2);

    let mut e = file_entry("x");
    e.meta = None;
    let lines = render_table(&vec![e], bare(), false);
    assert_eq!(lines.len(), 3);
}

#[test]
fn out_of_range_timestamp_drops_the_row() {
    let cfg = Config { all: false, created: true, size: false, updated: false };
    let mut e = file_entry("x");
    e.meta = Some(EntryMeta { size: 0, created_secs: -1, updated_secs: 0 });
    let lines = render_table(&vec![e], cfg, false);
    assert_eq!(lines.len(), 2);
}

#[test]
fn render_row_alone_agrees_with_the_table() {
    let e = file_entry("z");
    let row = render_row(&e, bare(), false);
    assert_eq!(row, Some(String::from("| z                    |")));
    let mut bad = file_entry("z");
    bad.is_dir = None;
    assert_eq!(render_row(&bad, bare(), false), None);
}

#[test]
fn long_names_are_kept_whole() {
    let e = file_entry("a_rather_long_path_name_over_twenty");
    let lines = render_table(&vec![e], bare(), false);
    assert_eq!(lines[2], "| a_rather_long_path_name_over_twenty |");
}
