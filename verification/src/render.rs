//! Rendering of the table: heading, separator and rows, with optional ANSI
//! color markers.  Every line is pinned down, character for character, by a
//! spec function; the timestamp text goes through the name stated in
//! `timefmt`.

use vstd::prelude::*;

use crate::config::Config;
use crate::entry::{EntryMeta, EntryRecord, EntryRecordView};
use crate::text::{
    center, center_text, dashes, dashes_string, dec_text, decimal, pad_left, pad_left_text,
    pad_right, pad_right_text,
};
use crate::timefmt::{format_timestamp, timestamp_text, TIMESTAMP_LIMIT};

verus! {

/// Width of the name field inside its cell.
pub const NAME_WIDTH: usize = 20;

/// Width of the numeric part of the size cell.
pub const SIZE_WIDTH: usize = 10;

/// Width of the timestamp field inside its cell.
pub const TIME_WIDTH: usize = 20;

/// The ANSI marker that starts blue text.
pub open spec fn blue_code() -> Seq<char> {
    "\u{1b}[34m"@
}

/// The ANSI marker that starts green text.
pub open spec fn green_code() -> Seq<char> {
    "\u{1b}[32m"@
}

/// The ANSI marker that starts yellow text.
pub open spec fn yellow_code() -> Seq<char> {
    "\u{1b}[33m"@
}

/// The ANSI marker that restores default text.
pub open spec fn reset_code() -> Seq<char> {
    "\u{1b}[0m"@
}

/// `s` wrapped in a color marker and the reset marker.
pub open spec fn color_wrap(code: Seq<char>, s: Seq<char>) -> Seq<char> {
    code + s + reset_code()
}

/// The name cell of a row: the path left-justified between borders, wrapped
/// in blue when the entry is a directory and color is on.
pub open spec fn spec_name_cell(path: Seq<char>, is_dir: bool, color: bool) -> Seq<char> {
    let padded = pad_right_text(path, NAME_WIDTH as nat);
    if is_dir && color {
        "| "@ + color_wrap(blue_code(), padded) + " |"@
    } else {
        "| "@ + padded + " |"@
    }
}

/// The size cell of a row: the byte count right-justified, a `B` unit and
/// the border.
pub open spec fn spec_size_cell(size: u64) -> Seq<char> {
    " "@ + pad_left_text(dec_text(size as nat), SIZE_WIDTH as nat) + " B |"@
}

/// A timestamp cell: the text right-justified, wrapped in a color marker
/// when color is on, and the border.
pub open spec fn spec_time_cell(ts: Seq<char>, code: Seq<char>, color: bool) -> Seq<char> {
    let padded = pad_left_text(ts, TIME_WIDTH as nat);
    if color {
        " "@ + color_wrap(code, padded) + " |"@
    } else {
        " "@ + padded + " |"@
    }
}

/// One full row for an entry whose reads all succeeded.
pub open spec fn spec_row(
    path: Seq<char>,
    is_dir: bool,
    meta: EntryMeta,
    cfg: Config,
    color: bool,
) -> Seq<char> {
    spec_name_cell(path, is_dir, color) + (if cfg.shows_size() {
        spec_size_cell(meta.size)
    } else {
        Seq::empty()
    }) + (if cfg.shows_created() {
        spec_time_cell(timestamp_text(meta.created_secs as int), green_code(), color)
    } else {
        Seq::empty()
    }) + (if cfg.shows_updated() {
        spec_time_cell(timestamp_text(meta.updated_secs as int), yellow_code(), color)
    } else {
        Seq::empty()
    })
}

/// Whether a timestamp lies in the range the renderer accepts.
pub open spec fn ts_renderable(secs: i64) -> bool {
    0 <= secs < TIMESTAMP_LIMIT
}

/// Whether an entry yields a row at all: its file type is known, and every
/// column the configuration asks for has its data.  An entry that fails
/// this is dropped silently.
pub open spec fn row_renderable(e: EntryRecordView, cfg: Config) -> bool {
    &&& e.is_dir is Some
    &&& (cfg.needs_meta() ==> e.meta is Some)
    &&& (cfg.shows_created() ==> e.meta is Some && ts_renderable(e.meta->0.created_secs))
    &&& (cfg.shows_updated() ==> e.meta is Some && ts_renderable(e.meta->0.updated_secs))
}

/// The row of an entry, if it yields one.
pub open spec fn spec_row_opt(e: EntryRecordView, cfg: Config, color: bool) -> Option<Seq<char>> {
    if row_renderable(e, cfg) {
        Some(spec_row(e.path, e.is_dir->0, e.meta->0, cfg, color))
    } else {
        None
    }
}

/// The heading line for a configuration.
pub open spec fn spec_heading(cfg: Config) -> Seq<char> {
    "|"@ + center_text("Name"@, 22) + "|"@ + (if cfg.shows_size() {
        center_text("Size"@, 14) + "|"@
    } else {
        Seq::empty()
    }) + (if cfg.shows_created() {
        " "@ + center_text("Created"@, 21) + "|"@
    } else {
        Seq::empty()
    }) + (if cfg.shows_updated() {
        " "@ + center_text("Updated"@, 21) + "|"@
    } else {
        Seq::empty()
    })
}

/// The separator line for a configuration.
pub open spec fn spec_separator(cfg: Config) -> Seq<char> {
    "+"@ + dashes(22) + "+"@ + (if cfg.shows_size() {
        dashes(14) + "+"@
    } else {
        Seq::empty()
    }) + (if cfg.shows_created() {
        dashes(22) + "+"@
    } else {
        Seq::empty()
    }) + (if cfg.shows_updated() {
        dashes(22) + "+"@
    } else {
        Seq::empty()
    })
}

/// The rows of a sequence of entries, in the sequence's order, entries that
/// yield no row dropped.
pub open spec fn spec_rows(es: Seq<EntryRecordView>, cfg: Config, color: bool) -> Seq<Seq<char>>
    decreases es.len(),
{
    if es.len() == 0 {
        Seq::empty()
    } else {
        match spec_row_opt(es[0], cfg, color) {
            Some(r) => seq![r] + spec_rows(es.drop_first(), cfg, color),
            None => spec_rows(es.drop_first(), cfg, color),
        }
    }
}

/// The whole table: heading, separator, then the entries' rows in the
/// reverse of the order the entries came in.
pub open spec fn spec_table(es: Seq<EntryRecordView>, cfg: Config, color: bool) -> Seq<Seq<char>> {
    seq![spec_heading(cfg), spec_separator(cfg)] + spec_rows(es.reverse(), cfg, color)
}

/// The name cell of a row.
pub fn render_name_cell(path: &str, is_dir: bool, color: bool) -> (r: String)
    ensures
        r@ == spec_name_cell(path@, is_dir, color),
{
    let padded = pad_right(path, NAME_WIDTH);
    let mut r = String::from_str("| ");
    if is_dir && color {
        r.append("\u{1b}[34m");
        r.append(padded.as_str());
        r.append("\u{1b}[0m");
    } else {
        r.append(padded.as_str());
    }
    r.append(" |");
    r
}

/// The size cell of a row.
pub fn render_size_cell(size: u64) -> (r: String)
    ensures
        r@ == spec_size_cell(size),
{
    let digits = decimal(size);
    let padded = pad_left(digits.as_str(), SIZE_WIDTH);
    let mut r = String::from_str(" ");
    r.append(padded.as_str());
    r.append(" B |");
    r
}

/// The creation-time cell of a row.
pub fn render_created_cell(secs: i64, color: bool) -> (r: String)
    requires
        ts_renderable(secs),
    ensures
        r@ == spec_time_cell(timestamp_text(secs as int), green_code(), color),
{
    let ts = format_timestamp(secs);
    let padded = pad_left(ts.as_str(), TIME_WIDTH);
    let mut r = String::from_str(" ");
    if color {
        r.append("\u{1b}[32m");
        r.append(padded.as_str());
        r.append("\u{1b}[0m");
    } else {
        r.append(padded.as_str());
    }
    r.append(" |");
    r
}

/// The modification-time cell of a row.
pub fn render_updated_cell(secs: i64, color: bool) -> (r: String)
    requires
        ts_renderable(secs),
    ensures
        r@ == spec_time_cell(timestamp_text(secs as int), yellow_code(), color),
{
    let ts = format_timestamp(secs);
    let padded = pad_left(ts.as_str(), TIME_WIDTH);
    let mut r = String::from_str(" ");
    if color {
        r.append("\u{1b}[33m");
        r.append(padded.as_str());
        r.append("\u{1b}[0m");
    } else {
        r.append(padded.as_str());
    }
    r.append(" |");
    r
}

/// The heading line.
pub fn render_heading(cfg: Config) -> (r: String)
    ensures
        r@ == spec_heading(cfg),
{
    let mut r = String::from_str("|");
    let name = center("Name", 22);
    r.append(name.as_str());
    r.append("|");
    if cfg.size || cfg.all {
        let c = center("Size", 14);
        r.append(c.as_str());
        r.append("|");
    }
    if cfg.created || cfg.all {
        r.append(" ");
        let c = center("Created", 21);
        r.append(c.as_str());
        r.append("|");
    }
    if cfg.updated || cfg.all {
        r.append(" ");
        let c = center("Updated", 21);
        r.append(c.as_str());
        r.append("|");
    }
    r
}

/// The separator line.
pub fn render_separator(cfg: Config) -> (r: String)
    ensures
        r@ == spec_separator(cfg),
{
    let mut r = String::from_str("+");
    let d = dashes_string(22);
    r.append(d.as_str());
    r.append("+");
    if cfg.size || cfg.all {
        let d = dashes_string(14);
        r.append(d.as_str());
        r.append("+");
    }
    if cfg.created || cfg.all {
        let d = dashes_string(22);
        r.append(d.as_str());
        r.append("+");
    }
    if cfg.updated || cfg.all {
        let d = dashes_string(22);
        r.append(d.as_str());
        r.append("+");
    }
    r
}

/// The row of one entry, or `None` for an entry that is dropped: one whose
/// file type is unknown, or that lacks data some enabled column needs.
pub fn render_row(e: &EntryRecord, cfg: Config, color: bool) -> (r: Option<String>)
    ensures
        r is Some <==> row_renderable(e@, cfg),
        r matches Some(s) ==> s@ == spec_row_opt(e@, cfg, color)->0,
{
    let is_dir = match e.is_dir {
        Some(d) => d,
        None => {
            return None;
        },
    };
    let mut line = render_name_cell(e.path.as_str(), is_dir, color);
    if cfg.size || cfg.created || cfg.updated || cfg.all {
        let meta = match e.meta {
            Some(m) => m,
            None => {
                return None;
            },
        };
        if (cfg.created || cfg.all) && !(0 <= meta.created_secs && meta.created_secs
            < TIMESTAMP_LIMIT) {
            return None;
        }
        if (cfg.updated || cfg.all) && !(0 <= meta.updated_secs && meta.updated_secs
            < TIMESTAMP_LIMIT) {
            return None;
        }
        if cfg.size || cfg.all {
            let cell = render_size_cell(meta.size);
            line.append(cell.as_str());
        }
        if cfg.created || cfg.all {
            let cell = render_created_cell(meta.created_secs, color);
            line.append(cell.as_str());
        }
        if cfg.updated || cfg.all {
            let cell = render_updated_cell(meta.updated_secs, color);
            line.append(cell.as_str());
        }
    }
    proof {
        assert(line@ =~= spec_row(e@.path, e@.is_dir->0, e@.meta->0, cfg, color));
    }
    Some(line)
}

/// The finished table for a list of entries: heading, separator, then one
/// row per rendered entry, in the reverse of the entries' order.
pub fn render_table(entries: &Vec<EntryRecord>, cfg: Config, color: bool) -> (r: Vec<String>)
    ensures
        ({
            let table = spec_table(entries@.map_values(|e: EntryRecord| e@), cfg, color);
            &&& r@.len() == table.len()
            &&& forall|i: int| 0 <= i < table.len() ==> r@[i]@ == table[i]
        }),
{
    let ghost es = entries@.map_values(|e: EntryRecord| e@);
    let mut r: Vec<String> = Vec::new();
    r.push(render_heading(cfg));
    r.push(render_separator(cfg));
    let n = entries.len();
    let mut j: usize = 0;
    proof {
        assert(es.reverse().take(0) =~= Seq::<EntryRecordView>::empty());
    }
    while j < n
        invariant
            n == entries@.len(),
            es == entries@.map_values(|e: EntryRecord| e@),
            j <= n,
            ({
                let done = spec_rows(es.reverse().take(j as int), cfg, color);
                &&& r@.len() == 2 + done.len()
                &&& r@[0]@ == spec_heading(cfg)
                &&& r@[1]@ == spec_separator(cfg)
                &&& forall|i: int| 0 <= i < done.len() ==> r@[i + 2]@ == done[i]
            }),
        decreases n - j,
    {
        let row = render_row(&entries[n - 1 - j], cfg, color);
        proof {
            lemma_spec_rows_one_more(es.reverse(), j as int, cfg, color);
            assert(es.reverse()[j as int] == es[n - 1 - j]);
        }
        match row {
            Some(s) => {
                r.push(s);
            },
            None => {
            },
        }
        j = j + 1;
    }
    proof {
        assert(es.reverse().take(n as int) =~= es.reverse());
    }
    r
}

/// Splitting off the first entry splits the rows accordingly.
proof fn lemma_spec_rows_one_more(es: Seq<EntryRecordView>, j: int, cfg: Config, color: bool)
    requires
        0 <= j < es.len(),
    ensures
        spec_rows(es.take(j + 1), cfg, color) == match spec_row_opt(es[j], cfg, color) {
            Some(r) => spec_rows(es.take(j), cfg, color).push(r),
            None => spec_rows(es.take(j), cfg, color),
        },
    decreases j,
{
    if j == 0 {
        assert(es.take(1)[0] == es[0]);
        assert(es.take(1).drop_first() =~= Seq::<EntryRecordView>::empty());
        assert(es.take(0) =~= Seq::<EntryRecordView>::empty());
        match spec_row_opt(es[0], cfg, color) {
            Some(r) => {
                assert(spec_rows(es.take(1), cfg, color) =~= spec_rows(
                    es.take(0),
                    cfg,
                    color,
                ).push(r));
            },
            None => {},
        }
    } else {
        lemma_spec_rows_one_more(es.drop_first(), j - 1, cfg, color);
        assert(es.take(j + 1).drop_first() =~= es.drop_first().take(j));
        assert(es.take(j).drop_first() =~= es.drop_first().take(j - 1));
        assert(es.take(j + 1)[0] == es[0]);
        assert(es.take(j)[0] == es[0]);
        assert(es.drop_first()[j - 1] == es[j]);
        match spec_row_opt(es[0], cfg, color) {
            Some(r0) => {
                match spec_row_opt(es[j], cfg, color) {
                    Some(r) => {
                        assert(seq![r0] + spec_rows(es.drop_first().take(j - 1), cfg, color).push(r)
                            =~= (seq![r0] + spec_rows(es.drop_first().take(j - 1), cfg, color)).push(
                            r,
                        ));
                    },
                    None => {},
                }
            },
            None => {},
        }
    }
}

} // verus!
