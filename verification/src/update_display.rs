use vstd::prelude::*;
use vstd::string::*;
use vstd::utf8::*;

use crate::model::{
    icon_view, ButtonConfig, EncoderConfig, MacroConfig, MacroConfigModel, MenuEncoderConfig,
};

verus! {

broadcast use vstd::utf8::group_utf8_lib;

/// Blank characters put between the end and the start of a text that scrolls.
pub const ROTATION_SPACER: &'static str = "   ";

/// The UTF-8 bytes of `ROTATION_SPACER`.
pub open spec fn spacer_bytes() -> Seq<u8> {
    seq![32u8, 32u8, 32u8]
}

/// The bytes of a scrolling text: the text's UTF-8 encoding followed by the spacer.
pub open spec fn padded_bytes(text: Seq<char>) -> Seq<u8> {
    encode_utf8(text) + spacer_bytes()
}

/// The byte offset at which a text scrolled by `amount` steps starts.
pub open spec fn rotation_index(text: Seq<char>, amount: nat) -> int {
    (amount % (encode_utf8(text).len() + 3)) as int
}

/// Whether `rotate` can cut the padded text at the offset it scrolls to: the
/// text fits the window (nothing is cut), or the offset starts a character.
pub open spec fn rotation_splits_cleanly(text: Seq<char>, amount: nat, length: nat) -> bool {
    encode_utf8(text).len() <= length || is_char_boundary(
        padded_bytes(text),
        rotation_index(text, amount),
    )
}

/// What `rotate` shows: a text that fits into `length` bytes unchanged;
/// otherwise the text with the spacer appended, cut at byte `amount` modulo its
/// byte length, the two parts swapped, and the first `length` characters kept.
pub open spec fn rotated_text(text: Seq<char>, amount: nat, length: nat) -> Seq<char> {
    if encode_utf8(text).len() <= length {
        text
    } else {
        let padded = padded_bytes(text);
        let index = rotation_index(text, amount);
        let chars = decode_utf8(
            padded.subrange(index, padded.len() as int) + padded.subrange(0, index),
        );
        chars.take(if length < chars.len() { length as int } else { chars.len() as int })
    }
}

/// The UTF-8 encoding of a concatenation is the concatenation of the encodings.
pub proof fn lemma_encode_utf8_concat(a: Seq<char>, b: Seq<char>)
    ensures
        encode_utf8(a + b) == encode_utf8(a) + encode_utf8(b),
    decreases a.len(),
{
    if a.len() == 0 {
        assert(a + b =~= b);
        assert(encode_utf8(a) + encode_utf8(b) =~= encode_utf8(b));
    } else {
        lemma_encode_utf8_concat(a.drop_first(), b);
        assert((a + b).drop_first() =~= a.drop_first() + b);
        assert((a + b)[0] == a[0]);
        assert(encode_utf8(a + b) =~= encode_utf8(a) + encode_utf8(b));
    }
}

proof fn lemma_spacer_bytes()
    ensures
        encode_utf8(ROTATION_SPACER@) == spacer_bytes(),
{
    reveal_strlit("   ");
    assert(is_ascii_chars(ROTATION_SPACER@));
    is_ascii_chars_encode_utf8(ROTATION_SPACER@);
    assert(encode_utf8(ROTATION_SPACER@) =~= spacer_bytes());
}

/// A scrolling text repeats after one full turn: the text's byte length plus
/// the spacer.
pub proof fn law_rotation_is_periodic(text: Seq<char>, amount: nat, length: nat)
    ensures
        rotated_text(text, amount + encode_utf8(text).len() + 3, length) == rotated_text(
            text,
            amount,
            length,
        ),
        rotation_splits_cleanly(text, amount + encode_utf8(text).len() + 3, length)
            == rotation_splits_cleanly(text, amount, length),
{
    let n = encode_utf8(text).len() + 3;
    vstd::arithmetic::div_mod::lemma_mod_add_multiples_vanish(amount as int, n as int);
    assert(rotation_index(text, (amount + n) as nat) == rotation_index(text, amount));
}

proof fn lemma_encode_utf8_len(text: Seq<char>)
    ensures
        text.len() <= encode_utf8(text).len(),
    decreases text.len(),
{
    if text.len() > 0 {
        lemma_encode_utf8_len(text.drop_first());
    }
}

/// A scrolling window never shows more than `length` characters.
pub proof fn law_rotation_fits_window(text: Seq<char>, amount: nat, length: nat)
    ensures
        rotated_text(text, amount, length).len() <= length,
{
    lemma_encode_utf8_len(text);
}

proof fn lemma_ascii_encode_subrange(chars: Seq<char>, a: int, b: int)
    requires
        is_ascii_chars(chars),
        0 <= a <= b <= chars.len(),
    ensures
        encode_utf8(chars.subrange(a, b)) == encode_utf8(chars).subrange(a, b),
{
    let sub = chars.subrange(a, b);
    assert(is_ascii_chars(sub));
    is_ascii_chars_encode_utf8(chars);
    is_ascii_chars_encode_utf8(sub);
    assert(encode_utf8(sub) =~= encode_utf8(chars).subrange(a, b));
}

/// The spacer characters that follow a scrolling text.
pub open spec fn spacer_chars() -> Seq<char> {
    seq![' ', ' ', ' ']
}

/// For an ASCII text, scrolling works on characters: the text with the spacer
/// appended is turned left by `amount` modulo its length, and the first
/// `length` characters are shown; and every scroll offset cuts cleanly.
pub proof fn law_ascii_rotation_turns_characters(text: Seq<char>, amount: nat, length: nat)
    requires
        is_ascii_chars(text),
        text.len() > length,
    ensures
        rotation_splits_cleanly(text, amount, length),
        ({
            let padded = text + spacer_chars();
            let index = (amount % padded.len()) as int;
            let turned = padded.subrange(index, padded.len() as int) + padded.subrange(0, index);
            rotated_text(text, amount, length) == turned.take(length as int)
        }),
{
    let padded = text + spacer_chars();
    assert(is_ascii_chars(padded));
    lemma_encode_utf8_concat(text, spacer_chars());
    assert(encode_utf8(spacer_chars()) == spacer_bytes()) by {
        assert(is_ascii_chars(spacer_chars()));
        is_ascii_chars_encode_utf8(spacer_chars());
        assert(encode_utf8(spacer_chars()) =~= spacer_bytes());
    }
    is_ascii_chars_encode_utf8(text);
    is_ascii_chars_encode_utf8(padded);
    let pb = padded_bytes(text);
    assert(pb == encode_utf8(padded));
    let index = rotation_index(text, amount);
    assert(index == (amount % padded.len()) as int);
    assert(0 <= index < pb.len());
    assert(is_char_boundary(pb, index)) by {
        assert(!is_continuation_byte(pb[index]));
    }
    lemma_ascii_encode_subrange(padded, index, padded.len() as int);
    lemma_ascii_encode_subrange(padded, 0, index);
    let tail = padded.subrange(index, padded.len() as int);
    let head = padded.subrange(0, index);
    lemma_encode_utf8_concat(tail, head);
    assert(decode_utf8(encode_utf8(tail + head)) == tail + head);
}

/// Scrolls `text` by `amount` steps through a window of `length` characters.
/// The scroll offset and the fit test count the text's UTF-8 bytes, while the
/// window counts characters.
pub fn rotate(text: &String, amount: usize, length: usize) -> (shown: String)
    requires
        encode_utf8(text@).len() + 3 <= usize::MAX,
        rotation_splits_cleanly(text@, amount as nat, length as nat),
    ensures
        shown@ == rotated_text(text@, amount as nat, length as nat),
{
    let len = text.as_str().len();
    if len <= length {
        return text.clone();
    }
    let padded = String::from_str(text.as_str()).concat(ROTATION_SPACER);
    proof {
        lemma_spacer_bytes();
        lemma_encode_utf8_concat(text@, ROTATION_SPACER@);
    }
    let padded_str = padded.as_str();
    proof {
        assert(padded_str.spec_bytes() == padded_bytes(text@));
    }
    let index = amount % (len + ROTATION_SPACER.len());
    let (start, end) = padded_str.split_at(index);
    let mut rotated = String::from_str(end);
    rotated.append(start);
    proof {
        let pb = padded_bytes(text@);
        assert(index as int == rotation_index(text@, amount as nat));
        assert(decode_utf8(end.spec_bytes()) == end@);
        lemma_encode_utf8_concat(end@, start@);
        assert(encode_utf8(rotated@) == pb.subrange(index as int, pb.len() as int) + pb.subrange(0, index as int));
    }
    let count = rotated.as_str().unicode_len();
    let keep = if length < count { length } else { count };
    let shown = String::from_str(rotated.as_str().substring_char(0, keep));
    proof {
        assert(shown@ =~= rotated@.take(keep as int));
    }
    shown
}


/// Characters of a text shown in a cell that has no usable icon.
pub const TEXT_WINDOW: usize = 3;

/// Width between the left edges of two neighbouring cells, in pixels.
pub const CELL_PITCH_X: i32 = 26;

/// Height between the top edges of two rows of button cells, in pixels.
pub const CELL_PITCH_Y: i32 = 23;

/// Vertical offset of a cell's text baseline from the cell's top edge.
pub const TEXT_BASELINE_Y: i32 = 13;

/// What an element of the configuration offers to the display.
pub struct DisplayData {
    pub text: String,
    pub icon: Option<Vec<u8>>,
}

/// Reads what a configured element shows on the display.
pub trait GetDisplayData {
    fn get_draw_data(&self) -> DisplayData;
}

fn copy_icon(icon: &Option<Vec<u8>>) -> (copy: Option<Vec<u8>>)
    ensures
        icon_view(copy) == icon_view(*icon),
{
    match icon {
        Some(bytes) => {
            let copy = bytes.clone();
            assert(copy@ =~= bytes@);
            Some(copy)
        },
        None => None,
    }
}

impl GetDisplayData for ButtonConfig {
    fn get_draw_data(&self) -> (d: DisplayData)
        ensures
            d.text@ == self@.text,
            icon_view(d.icon) == self@.icon,
    {
        DisplayData { text: self.display_text.clone(), icon: copy_icon(&self.display_icon) }
    }
}

impl GetDisplayData for MenuEncoderConfig {
    fn get_draw_data(&self) -> (d: DisplayData)
        ensures
            d.text@ == self@.text,
            icon_view(d.icon) == self@.icon,
    {
        DisplayData { text: self.display_text.clone(), icon: copy_icon(&self.display_icon) }
    }
}

impl GetDisplayData for EncoderConfig {
    fn get_draw_data(&self) -> (d: DisplayData)
        ensures
            d.text@ == self@.text,
            icon_view(d.icon) == self@.icon,
    {
        DisplayData { text: self.display_text.clone(), icon: copy_icon(&self.display_icon) }
    }
}

/// Whether `tinybmp` accepts the bytes as a BMP image for a monochrome display.
pub uninterp spec fn decodes_as_binary_bmp(bytes: Seq<u8>) -> bool;

/// The little-endian `u32` stored at `offset` in `bytes`.
pub open spec fn le_u32_at(bytes: Seq<u8>, offset: int) -> int {
    bytes[offset] + 256 * bytes[offset + 1] + 65536 * bytes[offset + 2] + 16777216 * bytes[
        offset + 3
    ]
}

/// Whether tinybmp can parse the bytes without an arithmetic overflow. While
/// parsing, tinybmp multiplies the header's count of palette colours (the
/// `u32` at byte 46) by four as a `usize`; with a 32-bit `usize` that overflows
/// from a count of 0x4000_0000 on.
pub open spec fn bmp_header_in_range(bytes: Seq<u8>) -> bool {
    usize::BITS == 64 || bytes.len() < 50 || le_u32_at(bytes, 46) < 0x4000_0000
}

/// Tests `bmp_header_in_range`.
pub fn icon_header_in_range(bytes: &[u8]) -> (ok: bool)
    ensures
        ok == bmp_header_in_range(bytes@),
{
    usize::BITS == 64 || bytes.len() < 50 || bytes[49] < 0x40
}

/// Calls `tinybmp::Bmp::<BinaryColor>::from_slice` and reports whether it
/// succeeded. Trusted: the answer is `decodes_as_binary_bmp` of the bytes, and
/// tinybmp refuses every input that does not begin with the signature `BM`.
/// Inputs on which the parser could overflow are excluded by `requires`.
#[verifier::external_body]
fn icon_decodes(bytes: &[u8]) -> (ok: bool)
    requires
        bmp_header_in_range(bytes@),
    ensures
        ok == decodes_as_binary_bmp(bytes@),
        ok ==> bytes@.len() >= 2 && bytes@[0] == 0x42u8 && bytes@[1] == 0x4Du8,
{
    tinybmp::Bmp::<embedded_graphics::pixelcolor::BinaryColor>::from_slice(bytes).is_ok()
}

/// What a cell of the display holds.
pub enum CellContent {
    /// A BMP image, drawn with its top left corner at the cell's corner.
    Icon(Vec<u8>),
    /// A text, centred on the cell's left edge at the text baseline.
    Text(String),
}

pub enum CellModel {
    Icon(Seq<u8>),
    Text(Seq<char>),
}

impl View for CellContent {
    type V = CellModel;

    open spec fn view(&self) -> CellModel {
        match self {
            CellContent::Icon(bytes) => CellModel::Icon(bytes@),
            CellContent::Text(text) => CellModel::Text(text@),
        }
    }
}

/// One cell of the display: its top left corner relative to the display's
/// origin, and what it shows.
pub struct Cell {
    pub x: i32,
    pub y: i32,
    pub content: CellContent,
}

/// What a cell shows: the icon when there is one and `icon_ok` holds, else the text
/// scrolled by the rotation counter through a window of `TEXT_WINDOW` characters.
pub open spec fn cell_model(
    text: Seq<char>,
    icon: Option<Seq<u8>>,
    icon_ok: bool,
    rotation_counter: nat,
) -> CellModel {
    match icon {
        Some(bytes) => if icon_ok {
            CellModel::Icon(bytes)
        } else {
            CellModel::Text(rotated_text(text, rotation_counter, 3))
        },
        None => CellModel::Text(rotated_text(text, rotation_counter, 3)),
    }
}

/// Whether the element's text can be scrolled, should the cell need it.
pub open spec fn text_scrolls(text: Seq<char>, rotation_counter: nat) -> bool {
    &&& encode_utf8(text).len() + 3 <= usize::MAX
    &&& rotation_splits_cleanly(text, rotation_counter, 3)
}

/// Whether a cell shows its icon rather than its text.
pub open spec fn shows_icon(icon: Option<Seq<u8>>, icon_ok: bool) -> bool {
    icon is Some && icon_ok
}

/// Decides what a cell shows, given whether the element's icon decodes.
pub fn cell_content(element: DisplayData, icon_ok: bool, rotation_counter: usize) -> (content:
    CellContent)
    requires
        shows_icon(icon_view(element.icon), icon_ok) || text_scrolls(
            element.text@,
            rotation_counter as nat,
        ),
    ensures
        content@ == cell_model(
            element.text@,
            icon_view(element.icon),
            icon_ok,
            rotation_counter as nat,
        ),
{
    match element.icon {
        Some(bytes) => {
            if icon_ok {
                return CellContent::Icon(bytes);
            }
        },
        None => {},
    }
    CellContent::Text(rotate(&element.text, rotation_counter, TEXT_WINDOW))
}

/// Whether `rotate` can scroll the text by `amount` through `length` characters.
pub fn can_rotate(text: &String, amount: usize, length: usize) -> (ok: bool)
    ensures
        ok == (encode_utf8(text@).len() + 3 <= usize::MAX && rotation_splits_cleanly(
            text@,
            amount as nat,
            length as nat,
        )),
{
    let len = text.as_str().as_bytes().len();
    if len > usize::MAX - 3 {
        return false;
    }
    if len <= length {
        return true;
    }
    let padded = String::from_str(text.as_str()).concat(ROTATION_SPACER);
    let padded_str = padded.as_str();
    proof {
        lemma_spacer_bytes();
        lemma_encode_utf8_concat(text@, ROTATION_SPACER@);
        assert(padded_str.spec_bytes() == padded_bytes(text@));
    }
    padded_str.is_char_boundary(amount % (len + 3))
}


/// Number of cells on the display: the two encoders, the menu encoder and the
/// ten buttons.
pub const NUM_CELLS: usize = 13;

/// Whether an optional icon is shown: it is present, tinybmp can be asked
/// about it safely, and tinybmp decodes it.
pub open spec fn icon_ok(icon: Option<Seq<u8>>) -> bool {
    match icon {
        Some(bytes) => bmp_header_in_range(bytes) && decodes_as_binary_bmp(bytes),
        None => false,
    }
}

/// Cell `k` shows encoder `k` for `k < 2`, the menu encoder for `k == 2`, and
/// button `k - 3` otherwise.
pub open spec fn slot_text(m: MacroConfigModel, k: int) -> Seq<char> {
    if k < 2 {
        m.encoders[k].text
    } else if k == 2 {
        m.menu_encoder.text
    } else {
        m.buttons[k - 3].text
    }
}

pub open spec fn slot_icon(m: MacroConfigModel, k: int) -> Option<Seq<u8>> {
    if k < 2 {
        m.encoders[k].icon
    } else if k == 2 {
        m.menu_encoder.icon
    } else {
        m.buttons[k - 3].icon
    }
}

/// Left edge of cell `k`: the encoders in the first two columns of the top row,
/// the menu encoder in the sixth, and the buttons in two rows of five below.
pub open spec fn cell_x(k: int) -> int {
    if k < 2 {
        26 * k
    } else if k == 2 {
        130int
    } else {
        26 * ((k - 3) % 5)
    }
}

/// Top edge of cell `k`.
pub open spec fn cell_y(k: int) -> int {
    if k <= 2 {
        0
    } else {
        23 + 23 * ((k - 3) / 5)
    }
}

/// No two cells share their top left corner.
pub proof fn law_cells_have_distinct_corners(j: int, k: int)
    requires
        0 <= j < k < 13,
    ensures
        cell_x(j) != cell_x(k) || cell_y(j) != cell_y(k),
{
}

/// Button `idx` sits in row `idx / 5` and column `idx % 5` of the button grid.
proof fn lemma_button_cell(idx: int, row: int, col: int)
    requires
        0 <= idx < 10,
        row == idx / 5,
        col == idx % 5,
    ensures
        0 <= row < 2,
        0 <= col < 5,
        cell_x(3 + idx) == 26 * col,
        cell_y(3 + idx) == 23 + 23 * row,
{
    assert(3 + idx - 3 == idx);
}

/// Each element of the configuration has its own cell: encoder `k` the cell
/// `k` at (26 k, 0), the menu encoder cell 2 at (130, 0), and the button at
/// row `row` and column `col` of the grid (button `5 row + col`) the cell with
/// corner (26 col, 23 + 23 row).
pub proof fn law_each_element_has_its_own_cell(m: MacroConfigModel, row: int, col: int)
    requires
        0 <= row < 2,
        0 <= col < 5,
    ensures
        cell_x(3 + 5 * row + col) == 26 * col,
        cell_y(3 + 5 * row + col) == 23 + 23 * row,
        slot_text(m, 3 + 5 * row + col) == m.buttons[5 * row + col].text,
        slot_icon(m, 3 + 5 * row + col) == m.buttons[5 * row + col].icon,
        forall|k: int|
            0 <= k < 2 ==> #[trigger] slot_text(m, k) == m.encoders[k].text && slot_icon(m, k)
                == m.encoders[k].icon && cell_x(k) == 26 * k && cell_y(k) == 0,
        slot_text(m, 2) == m.menu_encoder.text,
        slot_icon(m, 2) == m.menu_encoder.icon,
        cell_x(2) == 130,
        cell_y(2) == 0,
{
    lemma_button_cell(5 * row + col, row, col);
}

/// What cell `k` shows.
pub open spec fn slot_model(m: MacroConfigModel, k: int, rotation_counter: nat) -> CellModel {
    cell_model(slot_text(m, k), slot_icon(m, k), icon_ok(slot_icon(m, k)), rotation_counter)
}

/// Whether cell `k` can be drawn: it shows its icon, or its text can scroll.
pub open spec fn slot_drawable(m: MacroConfigModel, k: int, rotation_counter: nat) -> bool {
    shows_icon(slot_icon(m, k), icon_ok(slot_icon(m, k))) || text_scrolls(
        slot_text(m, k),
        rotation_counter,
    )
}

/// Whether every cell of the display can be drawn.
pub open spec fn layout_drawable(m: MacroConfigModel, rotation_counter: nat) -> bool {
    forall|k: int| 0 <= k < 13 ==> slot_drawable(m, k, rotation_counter)
}

/// Decides one cell; `None` where the cell would have to scroll a text that
/// cannot be cut at the scroll offset.
fn plan_cell(element: DisplayData, rotation_counter: usize) -> (content: Option<CellContent>)
    ensures
        content is Some <==> (shows_icon(
            icon_view(element.icon),
            icon_ok(icon_view(element.icon)),
        ) || text_scrolls(element.text@, rotation_counter as nat)),
        content matches Some(c) ==> c@ == cell_model(
            element.text@,
            icon_view(element.icon),
            icon_ok(icon_view(element.icon)),
            rotation_counter as nat,
        ),
{
    let ok = match &element.icon {
        Some(bytes) => icon_header_in_range(bytes.as_slice()) && icon_decodes(bytes.as_slice()),
        None => false,
    };
    if !ok && !can_rotate(&element.text, rotation_counter, TEXT_WINDOW) {
        return None;
    }
    Some(cell_content(element, ok, rotation_counter))
}

/// Lays out the whole display for one frame: for each of the `NUM_CELLS`
/// cells its position and what it shows. `None` where some cell would have to
/// scroll a text that cannot be cut at the scroll offset.
#[verifier::spinoff_prover]
pub fn display_layout(config: &MacroConfig, rotation_counter: usize) -> (cells: Option<Vec<Cell>>)
    ensures
        cells is Some <==> layout_drawable(config@, rotation_counter as nat),
        cells matches Some(cs) ==> {
            &&& cs@.len() == 13
            &&& forall|k: int|
                0 <= k < 13 ==> {
                    &&& #[trigger] cs@[k].x == cell_x(k)
                    &&& cs@[k].y == cell_y(k)
                    &&& cs@[k].content@ == slot_model(config@, k, rotation_counter as nat)
                }
        },
{
    let ghost m = config@;
    let mut cells: Vec<Cell> = Vec::new();
    let mut i: usize = 0;
    while i < 2
        invariant
            m == config@,
            0 <= i <= 2,
            cells@.len() == i,
            forall|k: int| 0 <= k < i ==> slot_drawable(m, k, rotation_counter as nat),
            forall|k: int|
                0 <= k < i ==> {
                    &&& #[trigger] cells@[k].x == cell_x(k)
                    &&& cells@[k].y == cell_y(k)
                    &&& cells@[k].content@ == slot_model(m, k, rotation_counter as nat)
                },
        decreases 2 - i,
    {
        assert(m.encoders[i as int] == config.encoders@[i as int]@);
        let element = config.encoders[i].get_draw_data();
        match plan_cell(element, rotation_counter) {
            Some(content) => {
                let ghost before = cells@;
                cells.push(Cell { x: CELL_PITCH_X * (i as i32), y: 0, content });
                assert(forall|k: int| 0 <= k < i ==> cells@[k] == before[k]);
            },
            None => {
                assert(!slot_drawable(m, i as int, rotation_counter as nat));
                return None;
            },
        }
        i = i + 1;
    }
    let element = config.menu_encoder.get_draw_data();
    match plan_cell(element, rotation_counter) {
        Some(content) => {
            let ghost before = cells@;
            cells.push(Cell { x: CELL_PITCH_X * 5, y: 0, content });
            assert(forall|k: int| 0 <= k < 2 ==> cells@[k] == before[k]);
        },
        None => {
            assert(!slot_drawable(m, 2, rotation_counter as nat));
            return None;
        },
    }
    let mut idx: usize = 0;
    while idx < 10
        invariant
            m == config@,
            0 <= idx <= 10,
            cells@.len() == 3 + idx,
            forall|k: int| 0 <= k < 3 + idx ==> slot_drawable(m, k, rotation_counter as nat),
            forall|k: int|
                0 <= k < 3 + idx ==> {
                    &&& #[trigger] cells@[k].x == cell_x(k)
                    &&& cells@[k].y == cell_y(k)
                    &&& cells@[k].content@ == slot_model(m, k, rotation_counter as nat)
                },
        decreases 10 - idx,
    {
        let row = idx / 5;
        let col = idx % 5;
        proof {
            lemma_button_cell(idx as int, row as int, col as int);
        }
        let x = CELL_PITCH_X * (col as i32);
        let y = CELL_PITCH_Y + CELL_PITCH_Y * (row as i32);
        assert(x == cell_x(3 + idx as int) && y == cell_y(3 + idx as int));
        assert(m.buttons[idx as int] == config.buttons@[idx as int]@);
        let element = config.buttons[idx].get_draw_data();
        match plan_cell(element, rotation_counter) {
            Some(content) => {
                let ghost before = cells@;
                let ghost shown = content@;
                cells.push(Cell { x, y, content });
                let ghost n = 3 + idx as int;
                assert(cells@[n].x == cell_x(n));
                assert(cells@[n].y == cell_y(n));
                assert(cells@[n].content@ == shown);
                assert(shown == slot_model(m, n, rotation_counter as nat));
                assert forall|k: int| 0 <= k < n + 1 implies {
                    &&& #[trigger] cells@[k].x == cell_x(k)
                    &&& cells@[k].y == cell_y(k)
                    &&& cells@[k].content@ == slot_model(m, k, rotation_counter as nat)
                } by {
                    if k < n {
                        assert(cells@[k] == before[k]);
                    }
                }
            },
            None => {
                assert(!slot_drawable(m, 3 + idx as int, rotation_counter as nat));
                return None;
            },
        }
        idx = idx + 1;
    }
    Some(cells)
}

} // verus!
