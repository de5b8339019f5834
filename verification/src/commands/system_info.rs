//! What the text answers of hardware queries say: the maker of a graphics
//! card, the cards that a DirectX report lists, the rows that `nvidia-smi`
//! prints, and the time for which the system has been up.

use crate::casing::{lowercase, lowercase_of};
use crate::records::optional_text;
use crate::text::{
    chars_find, chars_find_text, contains, find_char, find_text, join_texts, joined, lines,
    read_u64, split_on, split_text, split_whitespace, str_contains, text_lines, to_chars, tokens,
    trim, trim_text, unsigned64,
};
use vstd::prelude::*;

verus! {

/// The maker of a graphics card, by the lower-case form of the card's name:
/// the first of NVIDIA, AMD and Intel that the name points to.
pub open spec fn vendor_by_lowercase(lower: Seq<char>) -> Seq<char> {
    if contains(lower, "nvidia"@) {
        "NVIDIA"@
    } else if contains(lower, "amd"@) || contains(lower, "radeon"@) {
        "AMD"@
    } else if contains(lower, "intel"@) {
        "Intel"@
    } else {
        "Unknown"@
    }
}

/// The maker of the graphics card called `name`.
pub open spec fn vendor_of(name: Seq<char>) -> Seq<char> {
    vendor_by_lowercase(lowercase(name))
}

/// What stands between the first and the second colon of `line`, or after
/// the first where there is no second; `None` where the line has no colon.
pub open spec fn second_piece(line: Seq<char>) -> Option<Seq<char>> {
    if split_on(line, ':').len() >= 2 {
        Some(split_on(line, ':')[1])
    } else {
        None
    }
}

/// A graphics card as a report describes it.
#[derive(Clone, Debug, PartialEq, Eq)]
pub struct GraphicsCard {
    pub name: String,
    pub vendor: String,
    pub memory: u64,
}

/// The mathematical content of a `GraphicsCard`.
pub struct GraphicsCardView {
    pub name: Seq<char>,
    pub vendor: Seq<char>,
    pub memory: u64,
}

impl View for GraphicsCard {
    type V = GraphicsCardView;

    open spec fn view(&self) -> GraphicsCardView {
        GraphicsCardView { name: self.name@, vendor: self.vendor@, memory: self.memory }
    }
}

impl DeepView for GraphicsCard {
    type V = GraphicsCardView;

    open spec fn deep_view(&self) -> GraphicsCardView {
        self@
    }
}

/// The card that a report names on a line with `Card name:`: what follows
/// the colon, without the whitespace around it. The basic display adapter and
/// remote display adapters do not count as cards.
pub open spec fn named_card(line: Seq<char>) -> Option<Seq<char>> {
    match second_piece(line) {
        Some(piece) => if !contains(trim(piece), "Microsoft Basic Display"@) && !contains(
            trim(piece),
            "Remote"@,
        ) {
            Some(trim(piece))
        } else {
            None
        },
        None => None,
    }
}

/// The number that a text begins with: its first whitespace-separated token,
/// read as an unsigned 64-bit number.
pub open spec fn leading_number(text: Seq<char>) -> Option<u64> {
    if split_whitespace(text).len() > 0 {
        unsigned64(split_whitespace(text)[0])
    } else {
        None
    }
}

/// The amount of memory in bytes that a line with `Dedicated Memory:` states:
/// a number of megabytes where what follows the colon mentions `MB`, else a
/// number of gigabytes where it mentions `GB`. The amount wraps at 64 bits.
pub open spec fn stated_memory(line: Seq<char>) -> Option<u64> {
    match second_piece(line) {
        Some(piece) => if contains(trim(piece), "MB"@) {
            match leading_number(trim(piece)) {
                Some(mb) => Some(mb.wrapping_mul(1024).wrapping_mul(1024)),
                None => None,
            }
        } else if contains(trim(piece), "GB"@) {
            match leading_number(trim(piece)) {
                Some(gb) => Some(gb.wrapping_mul(1024).wrapping_mul(1024).wrapping_mul(1024)),
                None => None,
            }
        } else {
            None
        },
        None => None,
    }
}

/// How far a report has been read: the cards that are complete, the name of
/// the card that is being read, and its memory as far as it was stated.
pub struct CardScan {
    pub cards: Seq<GraphicsCardView>,
    pub card: Option<Seq<char>>,
    pub memory: Option<u64>,
}

/// A card with a name and, where it was stated, its memory.
pub open spec fn card_of(name: Seq<char>, memory: Option<u64>) -> GraphicsCardView {
    GraphicsCardView {
        name,
        vendor: vendor_of(name),
        memory: match memory {
            Some(bytes) => bytes,
            None => 0,
        },
    }
}

/// The cards of a scan once the card that is being read is complete.
pub open spec fn completed(scan: CardScan) -> Seq<GraphicsCardView> {
    match scan.card {
        Some(name) => scan.cards.push(card_of(name, scan.memory)),
        None => scan.cards,
    }
}

/// A scan after one more line. A line with `Card name:` completes the card
/// that was being read and begins the next; a line with `Dedicated Memory:`
/// states the memory of the card that is being read; any other line changes
/// nothing.
pub open spec fn scan_line(scan: CardScan, line: Seq<char>) -> CardScan {
    if contains(line, "Card name:"@) {
        CardScan {
            cards: completed(scan),
            card: named_card(line),
            memory: if scan.card is Some {
                None
            } else {
                scan.memory
            },
        }
    } else if contains(line, "Dedicated Memory:"@) && scan.card is Some {
        match stated_memory(line) {
            Some(bytes) => CardScan { memory: Some(bytes), ..scan },
            None => scan,
        }
    } else {
        scan
    }
}

/// The scan of the first `count` lines.
pub open spec fn scan_lines(all: Seq<Seq<char>>, count: int) -> CardScan
    decreases count,
{
    if count <= 0 || count > all.len() {
        CardScan { cards: Seq::empty(), card: None, memory: None }
    } else {
        scan_line(scan_lines(all, count - 1), all[count - 1])
    }
}

/// The graphics cards that a DirectX report lists, in its order.
pub open spec fn report_cards(report: Seq<char>) -> Seq<GraphicsCardView> {
    completed(scan_lines(lines(report), lines(report).len() as int))
}

/// What follows the colon on each line that holds `label`, without the
/// whitespace around it, for the lines at or after `from`.
pub open spec fn labelled_from(all: Seq<Seq<char>>, label: Seq<char>, from: int) -> Seq<Seq<char>>
    decreases all.len() - from,
{
    if from < 0 || from >= all.len() {
        Seq::empty()
    } else if contains(all[from], label) && second_piece(all[from]) is Some {
        seq![trim(second_piece(all[from])->0)] + labelled_from(all, label, from + 1)
    } else {
        labelled_from(all, label, from + 1)
    }
}

/// What is shown for each card name: the name with the memory of the same
/// position in brackets, or with `Unknown` where no memory is left for it.
pub open spec fn cards_with_memory(names: Seq<Seq<char>>, memory: Seq<Seq<char>>) -> Seq<
    Seq<char>,
> {
    Seq::new(
        names.len(),
        |i: int|
            names[i] + " ("@ + (if i < memory.len() {
                memory[i]
            } else {
                "Unknown"@
            }) + ")"@,
    )
}

/// What is shown for the graphics cards of a DirectX report: each card with
/// its memory, separated by a comma and a space, or `Unknown GPU` where that
/// would be empty.
pub open spec fn report_summary(report: Seq<char>) -> Seq<char> {
    let shown = joined(
        cards_with_memory(
            labelled_from(lines(report), "Card name:"@, 0),
            labelled_from(lines(report), "Dedicated Memory:"@, 0),
        ),
        ", "@,
    );
    if shown.len() == 0 {
        "Unknown GPU"@
    } else {
        shown
    }
}

/// The first six fields of a row, each without the whitespace around it; a
/// row of fewer than six fields, separated by commas, gives none.
pub open spec fn row_fields(row: Seq<char>) -> Option<Seq<Seq<char>>> {
    let fields = split_on(row, ',');
    if fields.len() >= 6 {
        Some(Seq::new(6, |i: int| trim(fields[i])))
    } else {
        None
    }
}

/// The fields of the rows at or after `from`.
pub open spec fn rows_from(rows: Seq<Seq<char>>, from: int) -> Seq<Seq<Seq<char>>>
    decreases rows.len() - from,
{
    if from < 0 || from >= rows.len() {
        Seq::empty()
    } else {
        match row_fields(rows[from]) {
            Some(fields) => seq![fields] + rows_from(rows, from + 1),
            None => rows_from(rows, from + 1),
        }
    }
}

/// The rows that `nvidia-smi` printed, each as its six fields. An answer that
/// is empty but for whitespace, or that says `not found`, has no rows.
pub open spec fn smi_rows(output: Seq<char>) -> Seq<Seq<Seq<char>>> {
    if trim(output).len() == 0 || contains(output, "not found"@) {
        Seq::empty()
    } else {
        rows_from(split_on(trim(output), '\n'), 0)
    }
}

/// What follows the first colon of `text`; `None` where it has none.
pub open spec fn after_first_colon(text: Seq<char>) -> Option<Seq<char>> {
    if find_char(text, ':', 0) < text.len() {
        Some(text.subrange(find_char(text, ':', 0) + 1, text.len() as int))
    } else {
        None
    }
}

/// The number that stands just before the first occurrence of `label`: the
/// last whitespace-separated token before it, read as an unsigned 64-bit
/// number.
pub open spec fn count_before(text: Seq<char>, label: Seq<char>) -> Option<u64> {
    match find_text(text, label, 0) {
        Some(at) => {
            let before = split_whitespace(trim(text.subrange(0, at)));
            if before.len() > 0 {
                unsigned64(before.last())
            } else {
                None
            }
        },
        None => None,
    }
}

/// The seconds that a count of some unit makes; nothing where there is no
/// count. The product wraps at 64 bits.
pub open spec fn seconds_of(count: Option<u64>, unit: u64) -> u64 {
    match count {
        Some(n) => n.wrapping_mul(unit),
        None => 0,
    }
}

/// The seconds that a text of the form `0 Days, 5 Hours, 30 Minutes, 15
/// Seconds` states. The sum wraps at 64 bits.
pub open spec fn stated_seconds(text: Seq<char>) -> u64 {
    seconds_of(count_before(text, "Days"@), 86400).wrapping_add(
        seconds_of(count_before(text, "Hours"@), 3600),
    ).wrapping_add(seconds_of(count_before(text, "Minutes"@), 60)).wrapping_add(
        seconds_of(count_before(text, "Seconds"@), 1),
    )
}

/// The time in seconds for which the system has been up, as a line of the
/// form `System Up Time: 0 Days, 5 Hours, 30 Minutes, 15 Seconds` states it
/// after its first colon; `None` where there is no colon or the time stated
/// is zero.
pub open spec fn uptime_of(output: Seq<char>) -> Option<u64> {
    match after_first_colon(output) {
        Some(rest) => if stated_seconds(trim(rest)) > 0 {
            Some(stated_seconds(trim(rest)))
        } else {
            None
        },
        None => None,
    }
}

/// The maker of a graphics card, by the lower-case form of the card's name.
pub fn vendor_from_lowercase(lower: &str) -> (r: String)
    ensures
        r@ == vendor_by_lowercase(lower@),
{
    if str_contains(lower, "nvidia") {
        "NVIDIA".to_string()
    } else if str_contains(lower, "amd") || str_contains(lower, "radeon") {
        "AMD".to_string()
    } else if str_contains(lower, "intel") {
        "Intel".to_string()
    } else {
        "Unknown".to_string()
    }
}

/// The maker of the graphics card called `name`.
pub fn gpu_vendor(name: &str) -> (r: String)
    ensures
        r@ == vendor_of(name@),
{
    let lower = lowercase_of(name);
    vendor_from_lowercase(lower.as_str())
}

/// What stands between the first and the second colon of `line`.
pub fn piece_after_colon<'a>(line: &'a str) -> (r: Option<&'a str>)
    ensures
        r is Some == second_piece(line@) is Some,
        r matches Some(piece) ==> second_piece(line@) == Some(piece@),
{
    let pieces = split_text(line, ':');
    if pieces.len() >= 2 {
        assert(pieces.deep_view()[1] == pieces@[1]@);
        Some(pieces[1])
    } else {
        None
    }
}

/// The number that `text` begins with.
pub fn number_at_start(text: &str) -> (r: Option<u64>)
    ensures
        r == leading_number(text@),
{
    let chars = to_chars(text);
    let all = tokens(&chars);
    if all.len() > 0 {
        assert(all.deep_view()[0] == all@[0]@);
        read_u64(&all[0])
    } else {
        None
    }
}

/// The amount of memory in bytes that a line with `Dedicated Memory:` states.
pub fn memory_stated(line: &str) -> (r: Option<u64>)
    ensures
        r == stated_memory(line@),
{
    match piece_after_colon(line) {
        Some(piece) => {
            let text = trim_text(piece);
            if str_contains(text, "MB") {
                match number_at_start(text) {
                    Some(mb) => Some(mb.wrapping_mul(1024).wrapping_mul(1024)),
                    None => None,
                }
            } else if str_contains(text, "GB") {
                match number_at_start(text) {
                    Some(gb) => Some(gb.wrapping_mul(1024).wrapping_mul(1024).wrapping_mul(1024)),
                    None => None,
                }
            } else {
                None
            }
        },
        None => None,
    }
}

/// The card that a report names on a line with `Card name:`.
pub fn card_named<'a>(line: &'a str) -> (r: Option<&'a str>)
    ensures
        r is Some == named_card(line@) is Some,
        r matches Some(name) ==> named_card(line@) == Some(name@),
{
    match piece_after_colon(line) {
        Some(piece) => {
            let name = trim_text(piece);
            if !str_contains(name, "Microsoft Basic Display") && !str_contains(name, "Remote") {
                Some(name)
            } else {
                None
            }
        },
        None => None,
    }
}

fn new_card(name: String, memory: Option<u64>) -> (r: GraphicsCard)
    ensures
        r@ == card_of(name@, memory),
{
    let vendor = gpu_vendor(name.as_str());
    let bytes: u64 = match memory {
        Some(m) => m,
        None => 0,
    };
    GraphicsCard { name, vendor, memory: bytes }
}

/// The graphics cards that a DirectX report lists, in its order.
pub fn parse_dxdiag_cards(report: &str) -> (cards: Vec<GraphicsCard>)
    ensures
        cards.deep_view() == report_cards(report@),
{
    let all = text_lines(report);
    let mut cards: Vec<GraphicsCard> = Vec::new();
    let mut card: Option<String> = None;
    let mut memory: Option<u64> = None;
    let mut i: usize = 0;
    assert(cards.deep_view() =~= Seq::<GraphicsCardView>::empty());
    while i < all.len()
        invariant
            i <= all.len(),
            all.deep_view() == lines(report@),
            scan_lines(lines(report@), i as int) == (CardScan {
                cards: cards.deep_view(),
                card: optional_text(card),
                memory,
            }),
        decreases all.len() - i,
    {
        assert(all.deep_view()[i as int] == all@[i as int]@);
        let line: &str = all[i];
        if str_contains(line, "Card name:") {
            let ghost shown = cards.deep_view();
            match card {
                Some(name) => {
                    let done = new_card(name, memory);
                    cards.push(done);
                    assert(cards.deep_view() =~= shown.push(done@));
                    memory = None;
                },
                None => {},
            }
            card = match card_named(line) {
                Some(name) => Some(name.to_string()),
                None => None,
            };
        } else if str_contains(line, "Dedicated Memory:") && card.is_some() {
            match memory_stated(line) {
                Some(bytes) => {
                    memory = Some(bytes);
                },
                None => {},
            }
        }
        i += 1;
    }
    let ghost shown = cards.deep_view();
    match card {
        Some(name) => {
            let done = new_card(name, memory);
            cards.push(done);
            assert(cards.deep_view() =~= shown.push(done@));
        },
        None => {},
    }
    cards
}

/// What follows the colon on each line that holds `label`.
pub fn labelled_values(all: &Vec<&str>, label: &str) -> (out: Vec<String>)
    ensures
        out.deep_view() == labelled_from(all.deep_view(), label@, 0),
{
    let mut out: Vec<String> = Vec::new();
    let mut i: usize = 0;
    while i < all.len()
        invariant
            i <= all.len(),
            labelled_from(all.deep_view(), label@, 0) == out.deep_view() + labelled_from(
                all.deep_view(),
                label@,
                i as int,
            ),
        decreases all.len() - i,
    {
        assert(all.deep_view()[i as int] == all@[i as int]@);
        let ghost shown = out.deep_view();
        let ghost rest = labelled_from(all.deep_view(), label@, i + 1);
        if str_contains(all[i], label) {
            match piece_after_colon(all[i]) {
                Some(piece) => {
                    let value = trim_text(piece).to_string();
                    let ghost text = value@;
                    out.push(value);
                    assert(out.deep_view() =~= shown.push(text));
                    assert(shown + (seq![text] + rest) =~= shown.push(text) + rest);
                },
                None => {},
            }
        }
        i += 1;
    }
    assert(out.deep_view() + Seq::<Seq<char>>::empty() =~= out.deep_view());
    out
}

/// What is shown for the graphics cards of a DirectX report.
pub fn dxdiag_summary(report: &str) -> (r: String)
    ensures
        r@ == report_summary(report@),
{
    let all = text_lines(report);
    let names = labelled_values(&all, "Card name:");
    let memory = labelled_values(&all, "Dedicated Memory:");
    let mut parts: Vec<String> = Vec::new();
    let mut i: usize = 0;
    while i < names.len()
        invariant
            i <= names.len(),
            parts.len() == i,
            forall|k: int|
                0 <= k < i ==> (#[trigger] parts@[k])@ == cards_with_memory(
                    names.deep_view(),
                    memory.deep_view(),
                )[k],
        decreases names.len() - i,
    {
        assert(names.deep_view()[i as int] == names@[i as int]@);
        let mut part = names[i].clone();
        part.append(" (");
        if i < memory.len() {
            assert(memory.deep_view()[i as int] == memory@[i as int]@);
            part.append(memory[i].as_str());
        } else {
            part.append("Unknown");
        }
        part.append(")");
        parts.push(part);
        i += 1;
    }
    assert(parts.deep_view() =~= cards_with_memory(names.deep_view(), memory.deep_view()));
    let shown = join_texts(&parts, ", ");
    if shown.as_str().unicode_len() == 0 {
        "Unknown GPU".to_string()
    } else {
        shown
    }
}

/// The first six fields of a row of `nvidia-smi`.
pub fn fields_of_row(row: &str) -> (r: Option<Vec<String>>)
    ensures
        r is Some == row_fields(row@) is Some,
        r matches Some(fields) ==> row_fields(row@) == Some(fields.deep_view()),
{
    let pieces = split_text(row, ',');
    if pieces.len() < 6 {
        return None;
    }
    let mut fields: Vec<String> = Vec::new();
    let mut i: usize = 0;
    while i < 6
        invariant
            i <= 6 <= pieces.len(),
            pieces.deep_view() == split_on(row@, ','),
            fields.len() == i,
            forall|k: int| 0 <= k < i ==> (#[trigger] fields@[k])@ == trim(split_on(row@, ',')[k]),
        decreases 6 - i,
    {
        assert(pieces.deep_view()[i as int] == pieces@[i as int]@);
        fields.push(trim_text(pieces[i]).to_string());
        i += 1;
    }
    assert(fields.deep_view() =~= row_fields(row@)->0);
    Some(fields)
}

/// The rows that `nvidia-smi` printed, each as its six fields: name, total,
/// used and free memory, utilisation and temperature.
pub fn parse_smi_rows(output: &str) -> (rows: Vec<Vec<String>>)
    ensures
        rows.deep_view() == smi_rows(output@),
{
    let text = trim_text(output);
    let mut rows: Vec<Vec<String>> = Vec::new();
    if text.unicode_len() == 0 || str_contains(output, "not found") {
        assert(rows.deep_view() =~= Seq::<Seq<Seq<char>>>::empty());
        return rows;
    }
    let all = split_text(text, '\n');
    let mut i: usize = 0;
    while i < all.len()
        invariant
            i <= all.len(),
            all.deep_view() == split_on(trim(output@), '\n'),
            rows_from(split_on(trim(output@), '\n'), 0) == rows.deep_view() + rows_from(
                split_on(trim(output@), '\n'),
                i as int,
            ),
        decreases all.len() - i,
    {
        assert(all.deep_view()[i as int] == all@[i as int]@);
        let ghost shown = rows.deep_view();
        let ghost rest = rows_from(split_on(trim(output@), '\n'), i + 1);
        match fields_of_row(all[i]) {
            Some(fields) => {
                let ghost row = fields.deep_view();
                rows.push(fields);
                assert(rows.deep_view() =~= shown.push(row));
                assert(shown + (seq![row] + rest) =~= shown.push(row) + rest);
            },
            None => {},
        }
        i += 1;
    }
    assert(rows.deep_view() + Seq::<Seq<Seq<char>>>::empty() =~= rows.deep_view());
    rows
}

/// The number that stands just before the first occurrence of `label`.
pub fn number_before(text: &str, label: &str) -> (r: Option<u64>)
    ensures
        r == count_before(text@, label@),
{
    let chars = to_chars(text);
    let needle = to_chars(label);
    match chars_find_text(&chars, &needle) {
        Some(at) => {
            let before = trim_text(text.substring_char(0, at));
            let before_chars = to_chars(before);
            let all = tokens(&before_chars);
            if all.len() > 0 {
                assert(all.deep_view().last() == all@[all.len() - 1]@);
                read_u64(&all[all.len() - 1])
            } else {
                None
            }
        },
        None => None,
    }
}

fn seconds(count: Option<u64>, unit: u64) -> (r: u64)
    ensures
        r == seconds_of(count, unit),
{
    match count {
        Some(n) => n.wrapping_mul(unit),
        None => 0,
    }
}

/// The time in seconds for which the system has been up, as a line of the
/// form `System Up Time: 0 Days, 5 Hours, 30 Minutes, 15 Seconds` states it.
pub fn parse_uptime(output: &str) -> (r: Option<u64>)
    ensures
        r == uptime_of(output@),
{
    let chars = to_chars(output);
    let colon: usize = chars_find(&chars, ':', 0);
    if colon >= chars.len() {
        return None;
    }
    let text = trim_text(output.substring_char(colon + 1, chars.len()));
    let total: u64 = seconds(number_before(text, "Days"), 86400).wrapping_add(
        seconds(number_before(text, "Hours"), 3600),
    ).wrapping_add(seconds(number_before(text, "Minutes"), 60)).wrapping_add(
        seconds(number_before(text, "Seconds"), 1),
    );
    if total > 0 {
        Some(total)
    } else {
        None
    }
}

} // verus!
