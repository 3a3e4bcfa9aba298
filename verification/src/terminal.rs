use vstd::prelude::*;
use vstd::string::StrSliceExecFns;
use vstd::utf8::{encode_scalar, encode_utf8};

use crate::events::{KeyCode, KeyModifiers, MouseEventKind};
use crate::position::{sat_sub16, Rect};
use crate::strings::push_char;

verus! {

/// ASCII upper-case form of a character.
pub open spec fn ascii_upper_char(c: char) -> char {
    if 'a' <= c <= 'z' { ((c as u32) - 32) as char } else { c }
}

/// Returns the ASCII upper-case form of `c`.
pub fn to_ascii_upper_char(c: char) -> (r: char)
    ensures
        r == ascii_upper_char(c),
{
    if 'a' <= c && c <= 'z' {
        let b = (c as u8) - 32;
        b as char
    } else {
        c
    }
}

/// Returns the UTF-8 encoding of `c`.
fn char_utf8(c: char) -> (r: Vec<u8>)
    ensures
        r@ == encode_scalar(c as u32),
        r@.len() >= 1,
{
    let mut s = String::new();
    push_char(&mut s, c);
    let r = s.as_str().as_bytes_vec();
    proof {
        assert(s@ =~= seq![c]);
        assert(seq![c].drop_first() =~= Seq::<char>::empty());
        assert(encode_utf8(seq![c]) =~= encode_scalar(c as u32) + encode_utf8(Seq::<char>::empty()));
        assert(encode_utf8(Seq::<char>::empty()) =~= Seq::<u8>::empty());
        assert(encode_utf8(seq![c]) =~= encode_scalar(c as u32));
    }
    r
}

/// `Control` and nothing else.
pub open spec fn only_control() -> KeyModifiers {
    KeyModifiers { control: true, ..KeyModifiers::spec_none() }
}

/// `a - b`, or `0` when `b` is larger.
pub open spec fn sat_sub8(a: u8, b: u8) -> u8 {
    if a >= b { (a - b) as u8 } else { 0 }
}

/// Bytes sent for a character key: its UTF-8 encoding; with `Control` alone, that of its upper-case
/// form with 64 taken off the first byte (down to zero).
pub open spec fn char_bytes(input: char, modifiers: KeyModifiers) -> Seq<u8> {
    if modifiers == only_control() {
        let b = encode_scalar(ascii_upper_char(input) as u32);
        b.update(0, sat_sub8(b[0], 64))
    } else {
        encode_scalar(input as u32)
    }
}

/// Converts a character to bytes, handling `Control` modifier.
pub fn get_char_bytes(input: char, modifiers: KeyModifiers) -> (r: Vec<u8>)
    ensures
        r@ == char_bytes(input, modifiers),
{
    if modifiers == KeyModifiers::control() {
        let mut result = char_utf8(to_ascii_upper_char(input));
        let first = result[0].saturating_sub(64);
        result.set(0, first);
        result
    } else {
        char_utf8(input)
    }
}

/// Terminal modifier code: 1, plus 1 for `Shift`, 2 for `Alt` and 4 for `Control`; 0 when none of
/// them is held.
pub open spec fn modifier_code(modifiers: KeyModifiers) -> u8 {
    let code = 1 + (if modifiers.shift { 1int } else { 0 }) + (if modifiers.alt { 2int } else { 0 }) + (if modifiers.control {
        4int
    } else {
        0
    });
    if code > 1 { code as u8 } else { 0 }
}

/// Converts key modifiers to terminal modifier code.
pub fn get_modifier_code(modifiers: KeyModifiers) -> (r: u8)
    ensures
        r == modifier_code(modifiers),
{
    let mut code: u8 = 1;
    if modifiers.shift {
        code += 1;
    }
    if modifiers.alt {
        code += 2;
    }
    if modifiers.control {
        code += 4;
    }
    if code > 1 {
        code
    } else {
        0
    }
}

/// ASCII decimal digits of `n`.
pub open spec fn decimal(n: nat) -> Seq<u8>
    decreases n,
{
    if n < 10 {
        seq![(48 + n) as u8]
    } else {
        decimal(n / 10) + seq![(48 + n % 10) as u8]
    }
}

/// Appends the ASCII decimal digits of `n` to `out`.
fn push_decimal(out: &mut Vec<u8>, n: u16)
    ensures
        final(out)@ == old(out)@ + decimal(n as nat),
    decreases n,
{
    if n >= 10 {
        push_decimal(out, n / 10);
    }
    out.push(48 + (n % 10) as u8);
    assert(final(out)@ =~= old(out)@ + decimal(n as nat));
}

/// The number that a function key from F5 to F12 is sent with.
pub open spec fn function_key_base(n: u8) -> nat {
    if n == 5 {
        15
    } else if n == 6 {
        17
    } else if n == 7 {
        18
    } else if n == 8 {
        19
    } else if n == 9 {
        20
    } else if n == 10 {
        21
    } else if n == 11 {
        23
    } else {
        24
    }
}

/// Bytes sent for the function key F`n`: `ESC O P`..`ESC O S` for F1 to F4 (`ESC [ 1 ;` and the
/// modifier code byte before the letter when a modifier is held), `ESC [ base ~` for F5 to F12 (with
/// `; code` before `~` when a modifier is held); none for other numbers.
pub open spec fn function_key_bytes(n: u8, modifiers: KeyModifiers) -> Option<Seq<u8>> {
    let code = modifier_code(modifiers);
    if 1 <= n <= 4 {
        let letter = (80 + n - 1) as u8;
        if code > 0 {
            Some(seq![27u8, 91, 49, 59, code, letter])
        } else {
            Some(seq![27u8, 79, letter])
        }
    } else if 5 <= n <= 12 {
        let base = decimal(function_key_base(n));
        if code > 0 {
            Some(seq![27u8, 91] + base + seq![59u8] + decimal(code as nat) + seq![126u8])
        } else {
            Some(seq![27u8, 91] + base + seq![126u8])
        }
    } else {
        None
    }
}

/// Converts function key to terminal byte sequence.
pub fn get_function_key_sequence(n: u8, modifiers: KeyModifiers) -> (r: Option<Vec<u8>>)
    ensures
        match r {
            Some(v) => function_key_bytes(n, modifiers) == Some(v@),
            None => function_key_bytes(n, modifiers) is None,
        },
{
    let code = get_modifier_code(modifiers);
    if 1 <= n && n <= 4 {
        let letter = 80 + (n - 1);
        if code > 0 {
            let r = vec![27u8, 91, 49, 59, code, letter];
            assert(r@ =~= seq![27u8, 91, 49, 59, code, letter]);
            Some(r)
        } else {
            let r = vec![27u8, 79, letter];
            assert(r@ =~= seq![27u8, 79, letter]);
            Some(r)
        }
    } else if 5 <= n && n <= 12 {
        let base: u16 = if n == 5 {
            15
        } else if n == 6 {
            17
        } else if n == 7 {
            18
        } else if n == 8 {
            19
        } else if n == 9 {
            20
        } else if n == 10 {
            21
        } else if n == 11 {
            23
        } else {
            24
        };
        let mut r = vec![27u8, 91];
        push_decimal(&mut r, base);
        if code > 0 {
            r.push(59);
            push_decimal(&mut r, code as u16);
        }
        r.push(126);
        assert(r@ =~= function_key_bytes(n, modifiers)->0);
        Some(r)
    } else {
        None
    }
}

/// `ESC [ c` in normal cursor mode, `ESC O c` in application cursor mode.
pub open spec fn cursor_key(app_mode: bool, c: u8) -> Seq<u8> {
    if app_mode { seq![27u8, 79, c] } else { seq![27u8, 91, c] }
}

/// Bytes sent to a terminal for a key press (`app_mode` is the application cursor mode).
pub open spec fn key_bytes(code: KeyCode, modifiers: KeyModifiers, app_mode: bool) -> Option<Seq<u8>> {
    match code {
        KeyCode::Char(c) => Some(char_bytes(c, modifiers)),
        KeyCode::Esc => Some(seq![27u8]),
        KeyCode::Backspace => Some(seq![127u8]),
        KeyCode::Enter => Some(seq![13u8]),
        KeyCode::PageUp => Some(seq![27u8, 91, 53, 126]),
        KeyCode::PageDown => Some(seq![27u8, 91, 54, 126]),
        KeyCode::Tab => Some(seq![9u8]),
        KeyCode::BackTab => Some(seq![27u8, 91, 90]),
        KeyCode::Delete => Some(seq![27u8, 91, 51, 126]),
        KeyCode::Insert => Some(seq![27u8, 91, 50, 126]),
        KeyCode::Home => Some(cursor_key(app_mode, 72)),
        KeyCode::End => Some(cursor_key(app_mode, 70)),
        KeyCode::Left => Some(cursor_key(app_mode, 68)),
        KeyCode::Right => Some(cursor_key(app_mode, 67)),
        KeyCode::Up => Some(cursor_key(app_mode, 65)),
        KeyCode::Down => Some(cursor_key(app_mode, 66)),
        KeyCode::F(n) => function_key_bytes(n, modifiers),
        _ => None,
    }
}

/// Returns the cursor key sequence for `c`.
fn cursor_key_vec(app_mode: bool, c: u8) -> (r: Vec<u8>)
    ensures
        r@ == cursor_key(app_mode, c),
{
    let r = if app_mode {
        vec![27u8, 79, c]
    } else {
        vec![27u8, 91, c]
    };
    assert(r@ =~= cursor_key(app_mode, c));
    r
}

/// Returns `bytes` as a vector.
fn bytes_vec(bytes: &[u8]) -> (r: Vec<u8>)
    ensures
        r@ == bytes@,
{
    let mut r: Vec<u8> = Vec::new();
    let mut i: usize = 0;
    while i < bytes.len()
        invariant
            i <= bytes@.len(),
            r@ == bytes@.take(i as int),
        decreases bytes@.len() - i,
    {
        r.push(bytes[i]);
        i = i + 1;
        assert(r@ =~= bytes@.take(i as int));
    }
    assert(bytes@.take(bytes@.len() as int) =~= bytes@);
    r
}

/// Converts a key event to terminal byte sequence.
pub fn encode_key(code: KeyCode, modifiers: KeyModifiers, app_mode: bool) -> (r: Option<Vec<u8>>)
    ensures
        match r {
            Some(v) => key_bytes(code, modifiers, app_mode) == Some(v@),
            None => key_bytes(code, modifiers, app_mode) is None,
        },
{
    match code {
        KeyCode::Char(input) => Some(get_char_bytes(input, modifiers)),
        KeyCode::Esc => Some(bytes_vec(&[27u8])),
        KeyCode::Backspace => Some(bytes_vec(&[127u8])),
        KeyCode::Enter => Some(bytes_vec(&[13u8])),
        KeyCode::PageUp => Some(bytes_vec(&[27u8, 91, 53, 126])),
        KeyCode::PageDown => Some(bytes_vec(&[27u8, 91, 54, 126])),
        KeyCode::Tab => Some(bytes_vec(&[9u8])),
        KeyCode::BackTab => Some(bytes_vec(&[27u8, 91, 90])),
        KeyCode::Delete => Some(bytes_vec(&[27u8, 91, 51, 126])),
        KeyCode::Insert => Some(bytes_vec(&[27u8, 91, 50, 126])),
        KeyCode::Home => Some(cursor_key_vec(app_mode, 72)),
        KeyCode::End => Some(cursor_key_vec(app_mode, 70)),
        KeyCode::Left => Some(cursor_key_vec(app_mode, 68)),
        KeyCode::Right => Some(cursor_key_vec(app_mode, 67)),
        KeyCode::Up => Some(cursor_key_vec(app_mode, 65)),
        KeyCode::Down => Some(cursor_key_vec(app_mode, 66)),
        KeyCode::F(n) => get_function_key_sequence(n, modifiers),
        _ => None,
    }
}

/// The SGR button number of a mouse action and whether it is a release.
pub open spec fn mouse_button(kind: MouseEventKind) -> Option<(u8, bool)> {
    match kind {
        MouseEventKind::LeftClick | MouseEventKind::LeftDoubleClick | MouseEventKind::LeftTripleClick => Some((0, false)),
        MouseEventKind::LeftUp => Some((0, true)),
        MouseEventKind::MiddleClick => Some((1, false)),
        MouseEventKind::MiddleUp => Some((1, true)),
        MouseEventKind::RightClick => Some((2, false)),
        MouseEventKind::RightUp => Some((2, true)),
        MouseEventKind::LeftDrag => Some((32, false)),
        MouseEventKind::MiddleDrag => Some((33, false)),
        MouseEventKind::RightDrag => Some((34, false)),
        MouseEventKind::Moved => Some((35, false)),
        MouseEventKind::ScrollUp => Some((64, false)),
        MouseEventKind::ScrollDown => Some((65, false)),
        _ => None,
    }
}

/// Bytes sent to a terminal for a mouse action in SGR extended format:
/// `ESC [ < button ; x ; y M` (`m` for a release), with `x` and `y` counted from 1 within `area`
/// and 4, 8 and 16 added to the button for `Shift`, `Alt` and `Control`.
pub open spec fn mouse_bytes(kind: MouseEventKind, column: u16, row: u16, area: Rect, modifiers: KeyModifiers) -> Option<Seq<u8>> {
    match mouse_button(kind) {
        None => None,
        Some((button, is_release)) => {
            let code = button + (if modifiers.shift { 4int } else { 0 }) + (if modifiers.alt { 8int } else { 0 }) + (if modifiers.control {
                16int
            } else {
                0
            });
            let x = sat_sub16(column, area.x) + 1;
            let y = sat_sub16(row, area.y) + 1;
            Some(
                seq![27u8, 91, 60] + decimal(code as nat) + seq![59u8] + decimal(x as nat) + seq![59u8] + decimal(y as nat) + seq![
                    if is_release { 109u8 } else { 77u8 },
                ],
            )
        },
    }
}

/// Encodes mouse event to SGR extended format.
pub fn encode_mouse(kind: MouseEventKind, column: u16, row: u16, area: Rect, modifiers: KeyModifiers) -> (r: Option<Vec<u8>>)
    requires
        sat_sub16(column, area.x) < u16::MAX,
        sat_sub16(row, area.y) < u16::MAX,
    ensures
        match r {
            Some(v) => mouse_bytes(kind, column, row, area, modifiers) == Some(v@),
            None => mouse_bytes(kind, column, row, area, modifiers) is None,
        },
{
    let (button, is_release) = match mouse_button_of(kind) {
        Some(b) => b,
        None => {
            return None;
        },
    };
    let mut button_code = button;
    if modifiers.shift {
        button_code += 4;
    }
    if modifiers.alt {
        button_code += 8;
    }
    if modifiers.control {
        button_code += 16;
    }
    let x = column.saturating_sub(area.x) + 1;
    let y = row.saturating_sub(area.y) + 1;
    let mut r = vec![27u8, 91, 60];
    let ghost r0 = r@;
    push_decimal(&mut r, button_code as u16);
    r.push(59);
    push_decimal(&mut r, x);
    r.push(59);
    push_decimal(&mut r, y);
    r.push(if is_release { 109u8 } else { 77u8 });
    proof {
        assert(r0 =~= seq![27u8, 91, 60]);
        let expected = mouse_bytes(kind, column, row, area, modifiers)->0;
        assert(expected == seq![27u8, 91, 60] + decimal(button_code as nat) + seq![59u8] + decimal(x as nat) + seq![59u8] + decimal(
            y as nat,
        ) + seq![if is_release { 109u8 } else { 77u8 }]);
        assert(r@ =~= expected);
    }
    Some(r)
}

/// Returns the SGR button number of a mouse action and whether it is a release.
fn mouse_button_of(kind: MouseEventKind) -> (r: Option<(u8, bool)>)
    ensures
        r == mouse_button(kind),
{
    match kind {
        MouseEventKind::LeftClick | MouseEventKind::LeftDoubleClick | MouseEventKind::LeftTripleClick => Some((0, false)),
        MouseEventKind::LeftUp => Some((0, true)),
        MouseEventKind::MiddleClick => Some((1, false)),
        MouseEventKind::MiddleUp => Some((1, true)),
        MouseEventKind::RightClick => Some((2, false)),
        MouseEventKind::RightUp => Some((2, true)),
        MouseEventKind::LeftDrag => Some((32, false)),
        MouseEventKind::MiddleDrag => Some((33, false)),
        MouseEventKind::RightDrag => Some((34, false)),
        MouseEventKind::Moved => Some((35, false)),
        MouseEventKind::ScrollUp => Some((64, false)),
        MouseEventKind::ScrollDown => Some((65, false)),
        _ => None,
    }
}

/// `ESC [ ?` starts at index `i` of `data`.
pub open spec fn csi_private_at(data: Seq<u8>, i: int) -> bool {
    0 <= i && i + 3 <= data.len() && data[i] == 27 && data[i + 1] == 91 && data[i + 2] == 63
}

/// A byte that may stand in the parameters of a mode sequence: a digit or `;`.
pub open spec fn is_param_byte(b: u8) -> bool {
    (48 <= b <= 57) || b == 59
}

/// Index of the first byte at or after `j` that is not a parameter byte (the length when there is
/// none).
pub open spec fn params_end(data: Seq<u8>, j: int) -> int
    decreases data.len() - j,
{
    if 0 <= j < data.len() && is_param_byte(data[j]) { params_end(data, j + 1) } else { j }
}

/// Index of the first `;` of `p` at or after `j` (the length when there is none).
pub open spec fn semicolon_from(p: Seq<u8>, j: int) -> int
    decreases p.len() - j,
{
    if j < 0 || j >= p.len() {
        p.len() as int
    } else if p[j] == 59 {
        j
    } else {
        semicolon_from(p, j + 1)
    }
}

/// The parameters of a mode sequence: its bytes split at each `;` (no field follows a final `;`).
pub open spec fn split_params(p: Seq<u8>) -> Seq<Seq<u8>>
    decreases p.len(),
{
    if p.len() == 0 {
        seq![]
    } else {
        let k = semicolon_from(p, 0);
        if k >= p.len() {
            seq![p]
        } else {
            proof {
                lemma_semicolon_bounds(p, 0);
            }
            seq![p.subrange(0, k)] + split_params(p.subrange(k + 1, p.len() as int))
        }
    }
}

/// Where the first `;` at or after `j` can be.
pub proof fn lemma_semicolon_bounds(p: Seq<u8>, j: int)
    requires
        0 <= j,
    ensures
        j <= semicolon_from(p, j) <= p.len() || (j > p.len() && semicolon_from(p, j) == p.len()),
        semicolon_from(p, j) < p.len() ==> p[semicolon_from(p, j)] == 59,
    decreases p.len() - j,
{
    if j < p.len() && p[j] != 59 {
        lemma_semicolon_bounds(p, j + 1);
    }
}

/// The terminal modes (application cursor mode, mouse reporting) after a mode parameter is set
/// (`on`) or reset: parameter 1 is the cursor mode, 1000, 1002, 1003 and 1006 are mouse reporting.
pub open spec fn apply_param(st: (Option<bool>, Option<bool>), param: Seq<u8>, on: bool) -> (Option<bool>, Option<bool>) {
    if param == seq![49u8] {
        (Some(on), st.1)
    } else if param == seq![49u8, 48, 48, 48] || param == seq![49u8, 48, 48, 50] || param == seq![49u8, 48, 48, 51] || param
        == seq![49u8, 48, 48, 54] {
        (st.0, Some(on))
    } else {
        st
    }
}

/// The modes after the parameters `fields` are applied in order.
pub open spec fn apply_params(st: (Option<bool>, Option<bool>), fields: Seq<Seq<u8>>, on: bool) -> (Option<bool>, Option<bool>)
    decreases fields.len(),
{
    if fields.len() == 0 {
        st
    } else {
        apply_params(apply_param(st, fields[0], on), fields.drop_first(), on)
    }
}

/// The modes after scanning `data` from index `i`: each `ESC [ ?` followed by parameters and `h`
/// (set) or `l` (reset) applies its parameters; the scan stops at the first such sequence that ends
/// otherwise.
pub open spec fn modes_from(data: Seq<u8>, i: int, st: (Option<bool>, Option<bool>)) -> (Option<bool>, Option<bool>)
    decreases data.len() - i,
{
    if i < 0 || i + 3 > data.len() {
        st
    } else if !csi_private_at(data, i) {
        modes_from(data, i + 1, st)
    } else {
        let end = params_end(data, i + 3);
        proof {
            lemma_params_end_bounds(data, i + 3);
        }
        if end < data.len() && (data[end] == 104 || data[end] == 108) {
            modes_from(data, end + 1, apply_params(st, split_params(data.subrange(i + 3, end)), data[end] == 104))
        } else {
            st
        }
    }
}

/// The parameters of a sequence end within the data.
pub proof fn lemma_params_end_bounds(data: Seq<u8>, j: int)
    requires
        0 <= j <= data.len(),
    ensures
        j <= params_end(data, j) <= data.len(),
    decreases data.len() - j,
{
    if j < data.len() && is_param_byte(data[j]) {
        lemma_params_end_bounds(data, j + 1);
    }
}

/// Applies the `;`-separated parameters in `data[from..to]` to `st`.
fn apply_param_list(data: &[u8], from: usize, to: usize, on: bool, st: (Option<bool>, Option<bool>)) -> (r: (Option<bool>, Option<bool>))
    requires
        from <= to <= data@.len(),
    ensures
        r == apply_params(st, split_params(data@.subrange(from as int, to as int)), on),
{
    let ghost target = apply_params(st, split_params(data@.subrange(from as int, to as int)), on);
    let mut st = st;
    let mut s = from;
    while s < to
        invariant
            from <= s <= to <= data@.len(),
            apply_params(st, split_params(data@.subrange(s as int, to as int)), on) == target,
        decreases to - s,
    {
        let ghost q = data@.subrange(s as int, to as int);
        let mut k = s;
        while k < to && data[k] != 59
            invariant
                s <= k <= to <= data@.len(),
                q == data@.subrange(s as int, to as int),
                semicolon_from(q, 0) == semicolon_from(q, k - s),
            decreases to - k,
        {
            k = k + 1;
        }
        let len = k - s;
        let is_mode = len == 1 && data[s] == 49;
        let is_mouse = len == 4 && data[s] == 49 && data[s + 1] == 48 && data[s + 2] == 48 && (data[s + 3] == 48 || data[s + 3] == 50
            || data[s + 3] == 51 || data[s + 3] == 54);
        let ghost old_st = st;
        let ghost field = data@.subrange(s as int, k as int);
        proof {
            assert(field =~= q.subrange(0, (k - s) as int));
            assert(field.len() == len);
            if len == 1 {
                assert(field =~= seq![data@[s as int]]);
            }
            if len == 4 {
                assert(field =~= seq![data@[s as int], data@[s + 1], data@[s + 2], data@[s + 3]]);
            }
            if k < to {
                assert(q[k - s] == 59);
                assert(semicolon_from(q, k - s) == k - s);
                assert(q.subrange(k - s + 1, q.len() as int) =~= data@.subrange(k + 1, to as int));
                assert(split_params(q) == seq![field] + split_params(data@.subrange(k + 1, to as int)));
                assert((seq![field] + split_params(data@.subrange(k + 1, to as int))).drop_first() =~= split_params(
                    data@.subrange(k + 1, to as int),
                ));
            } else {
                assert(field =~= q);
                assert(split_params(q) == seq![field]);
                assert(seq![field].drop_first() =~= Seq::<Seq<u8>>::empty());
            }
        }
        if is_mode {
            st = (Some(on), st.1);
        } else if is_mouse {
            st = (st.0, Some(on));
        }
        proof {
            if is_mode {
                assert(field =~= seq![49u8]);
            } else {
                assert(field != seq![49u8]) by {
                    if field == seq![49u8] {
                        assert(field.len() == 1 && field[0] == 49);
                    }
                }
                let m0 = seq![49u8, 48, 48, 48];
                let m2 = seq![49u8, 48, 48, 50];
                let m3 = seq![49u8, 48, 48, 51];
                let m6 = seq![49u8, 48, 48, 54];
                if is_mouse {
                    assert(field =~= m0 || field =~= m2 || field =~= m3 || field =~= m6);
                } else {
                    assert(!(field == m0 || field == m2 || field == m3 || field == m6)) by {
                        if field == m0 || field == m2 || field == m3 || field == m6 {
                            assert(field.len() == 4 && field[0] == 49 && field[1] == 48 && field[2] == 48);
                            assert(field[3] == 48 || field[3] == 50 || field[3] == 51 || field[3] == 54);
                        }
                    }
                }
            }
            assert(st == apply_param(old_st, field, on));
        }
        if k < to {
            s = k + 1;
        } else {
            s = to;
        }
        proof {
            assert(data@.subrange(to as int, to as int) =~= Seq::<u8>::empty());
        }
    }
    proof {
        assert(data@.subrange(s as int, to as int) =~= Seq::<u8>::empty());
    }
    st
}

/// Scans terminal output for mode changes: returns the last application cursor mode set or reset
/// and the last mouse reporting mode set or reset (`None` for a mode the output does not touch).
pub fn detect_terminal_modes(data: &[u8]) -> (r: (Option<bool>, Option<bool>))
    ensures
        r == modes_from(data@, 0, (None, None)),
{
    let ghost target = modes_from(data@, 0, (None, None));
    let mut application_mode: Option<bool> = None;
    let mut mouse_mode: Option<bool> = None;
    let mut i: usize = 0;
    let n = data.len();
    while i < n
        invariant
            n == data@.len(),
            i <= n,
            target == modes_from(data@, 0, (None, None)),
            modes_from(data@, i as int, (application_mode, mouse_mode)) == target,
        decreases n - i,
    {
        if n - i < 3 {
            return (application_mode, mouse_mode);
        }
        if !(data[i] == 27 && data[i + 1] == 91 && data[i + 2] == 63) {
            i += 1;
            continue;
        }
        assert(csi_private_at(data@, i as int));
        let mut end = i + 3;
        while end < n && ((48 <= data[end] && data[end] <= 57) || data[end] == 59)
            invariant
                i + 3 <= end <= n,
                n == data@.len(),
                params_end(data@, i + 3) == params_end(data@, end as int),
            decreases n - end,
        {
            end += 1;
        }
        assert(params_end(data@, end as int) == end);
        if end >= n || !(data[end] == 104 || data[end] == 108) {
            return (application_mode, mouse_mode);
        }
        let on = data[end] == 104;
        let st = apply_param_list(data, i + 3, end, on, (application_mode, mouse_mode));
        application_mode = st.0;
        mouse_mode = st.1;
        i = end + 1;
    }
    (application_mode, mouse_mode)
}

} // verus!
