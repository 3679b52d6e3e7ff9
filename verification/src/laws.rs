//! Properties of the renderer, stated and proved once for all inputs: the
//! shape of a bare listing, the reversal of the row order, the `all`
//! shorthand, and the color marker on directory rows.

use vstd::prelude::*;

use crate::config::Config;
use crate::entry::EntryRecordView;
use crate::render::{
    blue_code, reset_code, row_renderable, spec_heading, spec_name_cell, spec_row, spec_row_opt,
    spec_rows, spec_separator, spec_table,
};
use crate::text::pad_right_text;

verus! {

/// The rows of entries that all render: one row per entry, in order.
pub proof fn lemma_rows_of_renderable(es: Seq<EntryRecordView>, cfg: Config, color: bool)
    requires
        forall|i: int| 0 <= i < es.len() ==> row_renderable(#[trigger] es[i], cfg),
    ensures
        spec_rows(es, cfg, color).len() == es.len(),
        forall|i: int|
            0 <= i < es.len() ==> spec_rows(es, cfg, color)[i] == spec_row(
                es[i].path,
                es[i].is_dir->0,
                es[i].meta->0,
                cfg,
                color,
            ),
    decreases es.len(),
{
    if es.len() > 0 {
        assert forall|i: int| 0 <= i < es.drop_first().len() implies row_renderable(
            #[trigger] es.drop_first()[i],
            cfg,
        ) by {
            assert(es.drop_first()[i] == es[i + 1]);
        }
        lemma_rows_of_renderable(es.drop_first(), cfg, color);
        assert forall|i: int| 0 <= i < es.len() implies spec_rows(es, cfg, color)[i] == spec_row(
            es[i].path,
            es[i].is_dir->0,
            es[i].meta->0,
            cfg,
            color,
        ) by {
            if i > 0 {
                assert(es.drop_first()[i - 1] == es[i]);
            }
        }
    }
}

/// Row order is the reverse of the entries' order: when every entry
/// renders, row `i` of the table belongs to entry `n - 1 - i`.
pub proof fn lemma_row_order_reversed(es: Seq<EntryRecordView>, cfg: Config, color: bool)
    requires
        forall|i: int| 0 <= i < es.len() ==> row_renderable(#[trigger] es[i], cfg),
    ensures
        spec_table(es, cfg, color).len() == 2 + es.len(),
        forall|i: int|
            0 <= i < es.len() ==> #[trigger] spec_table(es, cfg, color)[2 + i] == spec_row(
                es[es.len() - 1 - i].path,
                es[es.len() - 1 - i].is_dir->0,
                es[es.len() - 1 - i].meta->0,
                cfg,
                color,
            ),
{
    let rev = es.reverse();
    assert forall|i: int| 0 <= i < rev.len() implies row_renderable(#[trigger] rev[i], cfg) by {
        assert(rev[i] == es[es.len() - 1 - i]);
    }
    lemma_rows_of_renderable(rev, cfg, color);
    assert forall|i: int| 0 <= i < es.len() implies #[trigger] spec_table(es, cfg, color)[2 + i]
        == spec_row(
        es[es.len() - 1 - i].path,
        es[es.len() - 1 - i].is_dir->0,
        es[es.len() - 1 - i].meta->0,
        cfg,
        color,
    ) by {
        assert(spec_table(es, cfg, color)[2 + i] == spec_rows(rev, cfg, color)[i]);
        assert(rev[i] == es[es.len() - 1 - i]);
    }
}

/// A listing with no optional column: one heading, one separator, and one
/// name-only row per entry whose file type is known.
pub proof fn lemma_bare_listing(es: Seq<EntryRecordView>, cfg: Config, color: bool)
    requires
        !cfg.shows_size(),
        !cfg.shows_created(),
        !cfg.shows_updated(),
        forall|i: int| 0 <= i < es.len() ==> (#[trigger] es[i]).is_dir is Some,
    ensures
        spec_table(es, cfg, color).len() == 2 + es.len(),
        spec_table(es, cfg, color)[0] == spec_heading(cfg),
        spec_table(es, cfg, color)[1] == spec_separator(cfg),
        forall|i: int|
            0 <= i < es.len() ==> #[trigger] spec_table(es, cfg, color)[2 + i] == spec_name_cell(
                es[es.len() - 1 - i].path,
                es[es.len() - 1 - i].is_dir->0,
                color,
            ),
{
    assert forall|i: int| 0 <= i < es.len() implies row_renderable(#[trigger] es[i], cfg) by {}
    lemma_row_order_reversed(es, cfg, color);
    assert forall|i: int| 0 <= i < es.len() implies #[trigger] spec_table(es, cfg, color)[2 + i]
        == spec_name_cell(es[es.len() - 1 - i].path, es[es.len() - 1 - i].is_dir->0, color) by {
        let e = es[es.len() - 1 - i];
        assert(spec_row(e.path, e.is_dir->0, e.meta->0, cfg, color) =~= spec_name_cell(
            e.path,
            e.is_dir->0,
            color,
        ));
    }
}

/// The `all` flag is a shorthand for the three column flags together: the
/// heading, the separator and every row come out the same.
pub proof fn lemma_all_flag_shorthand(
    ca: Config,
    cb: Config,
    e: EntryRecordView,
    color: bool,
)
    requires
        ca.all,
        cb.size && cb.created && cb.updated,
    ensures
        spec_heading(ca) == spec_heading(cb),
        spec_separator(ca) == spec_separator(cb),
        spec_row_opt(e, ca, color) == spec_row_opt(e, cb, color),
{
}

/// The `all` shorthand, lifted to whole tables.
pub proof fn lemma_all_flag_shorthand_table(
    es: Seq<EntryRecordView>,
    ca: Config,
    cb: Config,
    color: bool,
)
    requires
        ca.all,
        cb.size && cb.created && cb.updated,
    ensures
        spec_table(es, ca, color) == spec_table(es, cb, color),
{
    lemma_rows_same_columns(es.reverse(), ca, cb, color);
    assert(spec_table(es, ca, color) =~= spec_table(es, cb, color));
}

/// Two configurations that show the same columns yield the same rows.
proof fn lemma_rows_same_columns(es: Seq<EntryRecordView>, ca: Config, cb: Config, color: bool)
    requires
        ca.shows_size() == cb.shows_size(),
        ca.shows_created() == cb.shows_created(),
        ca.shows_updated() == cb.shows_updated(),
    ensures
        spec_rows(es, ca, color) == spec_rows(es, cb, color),
    decreases es.len(),
{
    if es.len() > 0 {
        lemma_rows_same_columns(es.drop_first(), ca, cb, color);
    }
}

/// The separator's dashes match the heading's columns: whatever columns a
/// configuration turns on, the two lines have the same width.
pub proof fn lemma_separator_matches_heading(cfg: Config)
    ensures
        spec_separator(cfg).len() == spec_heading(cfg).len(),
{
    reveal_strlit("|");
    reveal_strlit("+");
    reveal_strlit(" ");
    reveal_strlit("Name");
    reveal_strlit("Size");
    reveal_strlit("Created");
    reveal_strlit("Updated");
}

/// Directory rows carry a color marker that non-directory rows lack: with
/// color on, the name cell of a directory is the padded path wrapped in
/// the blue and reset markers, a non-directory's is the padded path alone,
/// and only the former holds the escape character (provided the path
/// itself holds none).
pub proof fn lemma_directory_color_marker(path: Seq<char>, color: bool)
    ensures
        spec_name_cell(path, true, true) == "| "@ + blue_code() + pad_right_text(path, 20)
            + reset_code() + " |"@,
        spec_name_cell(path, false, color) == "| "@ + pad_right_text(path, 20) + " |"@,
        spec_name_cell(path, true, true).contains('\u{1b}'),
        !path.contains('\u{1b}') ==> !spec_name_cell(path, false, color).contains('\u{1b}'),
{
    reveal_strlit("| ");
    reveal_strlit(" |");
    reveal_strlit("\u{1b}[34m");
    reveal_strlit("\u{1b}[0m");
    let dir_cell = spec_name_cell(path, true, true);
    let plain_cell = spec_name_cell(path, false, color);
    assert(dir_cell == "| "@ + blue_code() + pad_right_text(path, 20) + reset_code() + " |"@)
        by {
        assert(dir_cell =~= "| "@ + blue_code() + pad_right_text(path, 20) + reset_code()
            + " |"@);
    }
    assert(dir_cell[2] == '\u{1b}');
    assert(dir_cell.contains('\u{1b}'));
    if !path.contains('\u{1b}') {
        assert forall|i: int| 0 <= i < plain_cell.len() implies plain_cell[i] != '\u{1b}' by {
            let padded = pad_right_text(path, 20);
            if 2 <= i < 2 + padded.len() {
                if i - 2 < path.len() {
                    if path[i - 2] == '\u{1b}' {
                        assert(path.contains('\u{1b}'));
                    }
                } else {
                    assert(padded[i - 2] == ' ');
                }
            }
        }
        assert(!plain_cell.contains('\u{1b}'));
    }
}

} // verus!
