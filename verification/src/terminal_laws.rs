use vstd::prelude::*;

use crate::events::{KeyModifiers, MouseEventKind};
use crate::position::{sat_sub16, Rect};
use crate::terminal::{
    apply_param, apply_params, csi_private_at, decimal, is_param_byte, modes_from, mouse_bytes, mouse_button, params_end, semicolon_from,
    split_params,
};

verus! {

/// Every digit of a decimal number is an ASCII digit.
proof fn lemma_decimal_digits(n: nat)
    ensures
        decimal(n).len() >= 1,
        forall|i: int| 0 <= i < decimal(n).len() ==> 48 <= #[trigger] decimal(n)[i] <= 57,
        n >= 10 ==> decimal(n).len() >= 2,
    decreases n,
{
    if n >= 10 {
        lemma_decimal_digits(n / 10);
        let d = decimal(n / 10);
        assert forall|i: int| 0 <= i < decimal(n).len() implies 48 <= #[trigger] decimal(n)[i] <= 57 by {
            if i < d.len() {
                assert(decimal(n)[i] == d[i]);
            }
        }
    }
}

/// Different numbers have different decimal texts.
proof fn lemma_decimal_injective(a: nat, b: nat)
    requires
        decimal(a) == decimal(b),
    ensures
        a == b,
    decreases a,
{
    lemma_decimal_digits(a);
    lemma_decimal_digits(b);
    if a >= 10 && b >= 10 {
        assert(decimal(a / 10) == decimal(a).drop_last());
        assert(decimal(b / 10) == decimal(b).drop_last());
        lemma_decimal_injective(a / 10, b / 10);
        assert(decimal(a).last() == ((48 + a % 10) as u8));
        assert(decimal(b).last() == ((48 + b % 10) as u8));
        assert(decimal(a).last() == decimal(b).last());
        assert(a % 10 == b % 10);
        assert(a == 10 * (a / 10) + a % 10);
        assert(b == 10 * (b / 10) + b % 10);
    } else if a < 10 && b < 10 {
        assert(decimal(a)[0] == ((48 + a) as u8));
        assert(decimal(b)[0] == ((48 + b) as u8));
        assert(decimal(a)[0] == decimal(b)[0]);
    } else {
        assert(decimal(a).len() != decimal(b).len());
    }
}

/// A decimal number followed by a separator can be read back: equal texts of this shape hold the
/// same number.
proof fn lemma_decimal_prefix(a: nat, b: nat, ra: Seq<u8>, rb: Seq<u8>)
    requires
        decimal(a) + seq![59u8] + ra == decimal(b) + seq![59u8] + rb,
    ensures
        a == b,
        ra == rb,
{
    lemma_decimal_digits(a);
    lemma_decimal_digits(b);
    let sa = decimal(a) + seq![59u8] + ra;
    let la = decimal(a).len() as int;
    let lb = decimal(b).len() as int;
    if la < lb {
        assert(sa[la] == 59u8);
        assert((decimal(b) + seq![59u8] + rb)[la] == decimal(b)[la]);
    } else if lb < la {
        assert((decimal(b) + seq![59u8] + rb)[lb] == 59u8);
        assert(sa[lb] == decimal(a)[lb]);
    }
    assert(decimal(a) =~= sa.take(la));
    assert(decimal(b) =~= (decimal(b) + seq![59u8] + rb).take(lb));
    lemma_decimal_injective(a, b);
    assert(ra =~= sa.skip(la + 1));
    assert(rb =~= (decimal(b) + seq![59u8] + rb).skip(lb + 1));
}

/// The modifiers of a mouse action can be told apart from the bytes sent for it: two sets of
/// modifiers that give the same bytes agree on `Shift`, `Alt` and `Control`.
pub proof fn law_mouse_modifiers_distinct(
    kind: MouseEventKind,
    column: u16,
    row: u16,
    area: Rect,
    m1: KeyModifiers,
    m2: KeyModifiers,
)
    requires
        mouse_bytes(kind, column, row, area, m1) is Some,
        mouse_bytes(kind, column, row, area, m1) == mouse_bytes(kind, column, row, area, m2),
    ensures
        m1.shift == m2.shift,
        m1.alt == m2.alt,
        m1.control == m2.control,
{
    let (button, is_release) = mouse_button(kind)->0;
    let code1 = button + (if m1.shift { 4int } else { 0 }) + (if m1.alt { 8int } else { 0 }) + (if m1.control { 16int } else { 0 });
    let code2 = button + (if m2.shift { 4int } else { 0 }) + (if m2.alt { 8int } else { 0 }) + (if m2.control { 16int } else { 0 });
    let x = sat_sub16(column, area.x) + 1;
    let y = sat_sub16(row, area.y) + 1;
    let tail = decimal(x as nat) + seq![59u8] + decimal(y as nat) + seq![if is_release { 109u8 } else { 77u8 }];
    let b1 = mouse_bytes(kind, column, row, area, m1)->0;
    assert(b1 =~= seq![27u8, 91, 60] + (decimal(code1 as nat) + seq![59u8] + tail));
    assert(b1 =~= seq![27u8, 91, 60] + (decimal(code2 as nat) + seq![59u8] + tail));
    assert(b1.skip(3) =~= decimal(code1 as nat) + seq![59u8] + tail);
    assert(b1.skip(3) =~= decimal(code2 as nat) + seq![59u8] + tail);
    lemma_decimal_prefix(code1 as nat, code2 as nat, tail, tail);
}

/// Mouse bytes with button number `n`, followed by `tail`.
pub open spec fn with_button(n: nat, tail: Seq<u8>) -> Seq<u8> {
    seq![27u8, 91, 60] + decimal(n) + tail
}

/// Modifiers change only the button number of a mouse action's bytes, adding 4 for `Shift`, 8 for
/// `Alt` and 16 for `Control` to the number sent without modifiers.
pub proof fn law_mouse_modifiers_add_to_button(kind: MouseEventKind, column: u16, row: u16, area: Rect, m: KeyModifiers)
    requires
        mouse_button(kind) is Some,
    ensures
        exists|n: nat, tail: Seq<u8>|
            {
                &&& mouse_bytes(kind, column, row, area, KeyModifiers::spec_none()) == Some(#[trigger] with_button(n, tail))
                &&& mouse_bytes(kind, column, row, area, m) == Some(
                    with_button(
                        n + (if m.shift { 4nat } else { 0 }) + (if m.alt { 8nat } else { 0 }) + (if m.control { 16nat } else { 0 }),
                        tail,
                    ),
                )
            },
{
    let (button, is_release) = mouse_button(kind)->0;
    let x = sat_sub16(column, area.x) + 1;
    let y = sat_sub16(row, area.y) + 1;
    let tail = seq![59u8] + decimal(x as nat) + seq![59u8] + decimal(y as nat) + seq![if is_release { 109u8 } else { 77u8 }];
    let n = button as nat;
    let code = n + (if m.shift { 4nat } else { 0 }) + (if m.alt { 8nat } else { 0 }) + (if m.control { 16nat } else { 0 });
    assert(mouse_bytes(kind, column, row, area, KeyModifiers::spec_none())->0 =~= with_button(n, tail));
    assert(mouse_bytes(kind, column, row, area, m)->0 =~= with_button(code, tail));
}

/// Mouse bytes ending in a position `x;y` and a final byte, after `head`.
pub open spec fn with_position(head: Seq<u8>, x: nat, y: nat, last: u8) -> Seq<u8> {
    head + decimal(x) + seq![59u8] + decimal(y) + seq![last]
}

/// The position a mouse action reports counts from 1 at the area's top-left corner: at the corner
/// it is `1;1`, and one column (or row) further the column (or row) number is one more, the rest
/// of the bytes staying the same. A button release ends with `m`, anything else with `M`.
pub proof fn law_mouse_position(kind: MouseEventKind, column: u16, row: u16, area: Rect, m: KeyModifiers)
    requires
        mouse_button(kind) is Some,
        area.x <= column < u16::MAX,
        area.y <= row < u16::MAX,
    ensures
        exists|head: Seq<u8>, x: nat, y: nat, last: u8|
            {
                &&& mouse_bytes(kind, column, row, area, m) == Some(#[trigger] with_position(head, x, y, last))
                &&& mouse_bytes(kind, (column + 1) as u16, row, area, m) == Some(with_position(head, x + 1, y, last))
                &&& mouse_bytes(kind, column, (row + 1) as u16, area, m) == Some(with_position(head, x, y + 1, last))
                &&& (column == area.x ==> x == 1)
                &&& (row == area.y ==> y == 1)
                &&& (last == 109u8) == (kind is LeftUp || kind is MiddleUp || kind is RightUp)
                &&& (last == 109u8 || last == 77u8)
            },
{
    let (button, is_release) = mouse_button(kind)->0;
    let code = button + (if m.shift { 4int } else { 0 }) + (if m.alt { 8int } else { 0 }) + (if m.control { 16int } else { 0 });
    let head = seq![27u8, 91, 60] + decimal(code as nat) + seq![59u8];
    let x = (column - area.x + 1) as nat;
    let y = (row - area.y + 1) as nat;
    let last = if is_release { 109u8 } else { 77u8 };
    assert(mouse_bytes(kind, column, row, area, m)->0 =~= with_position(head, x, y, last));
    assert(mouse_bytes(kind, (column + 1) as u16, row, area, m)->0 =~= with_position(head, x + 1, y, last));
    assert(mouse_bytes(kind, column, (row + 1) as u16, area, m)->0 =~= with_position(head, x, y + 1, last));
}


/// The mode sequence `ESC [ ? param` followed by `h` (set, `on`) or `l` (reset).
pub open spec fn mode_sequence(param: Seq<u8>, on: bool) -> Seq<u8> {
    seq![27u8, 91, 63] + param + seq![if on { 104u8 } else { 108u8 }]
}

/// Bytes without an escape byte leave the scan's modes as they are.
proof fn lemma_scan_plain(data: Seq<u8>, i: int, n: int, st: (Option<bool>, Option<bool>))
    requires
        0 <= i <= n <= data.len(),
        forall|k: int| i <= k < n ==> data[k] != 27,
    ensures
        modes_from(data, i, st) == modes_from(data, n, st),
    decreases n - i,
{
    if i < n {
        lemma_scan_plain(data, i + 1, n, st);
    }
}

/// Digits run up to the first byte that is not one.
proof fn lemma_params_end_digits(data: Seq<u8>, j: int, n: int)
    requires
        0 <= j <= n < data.len(),
        forall|k: int| j <= k < n ==> 48 <= #[trigger] data[k] <= 57,
        !is_param_byte(data[n]),
    ensures
        params_end(data, j) == n,
    decreases n - j,
{
    if j < n {
        lemma_params_end_digits(data, j + 1, n);
    }
}

/// Digits hold no `;`.
proof fn lemma_no_semicolon(p: Seq<u8>, j: int)
    requires
        0 <= j <= p.len(),
        forall|k: int| 0 <= k < p.len() ==> 48 <= #[trigger] p[k] <= 57,
    ensures
        semicolon_from(p, j) == p.len(),
    decreases p.len() - j,
{
    if j < p.len() {
        lemma_no_semicolon(p, j + 1);
    }
}

/// Output with no escape byte, then a mode sequence: `ESC [ ? 1 h` turns the application cursor
/// mode on and `ESC [ ? 1 l` off; `ESC [ ? 1000`, `1002`, `1003` or `1006` with `h` or `l` turns
/// mouse reporting on or off; the other mode stays as it was.
pub proof fn law_mode_sequence(text: Seq<u8>, param: Seq<u8>, on: bool, st: (Option<bool>, Option<bool>))
    requires
        forall|k: int| 0 <= k < text.len() ==> text[k] != 27,
        param == seq![49u8] || param == seq![49u8, 48, 48, 48] || param == seq![49u8, 48, 48, 50] || param == seq![
            49u8,
            48,
            48,
            51,
        ] || param == seq![49u8, 48, 48, 54],
    ensures
        modes_from(text + mode_sequence(param, on), 0, st) == if param == seq![49u8] {
            (Some(on), st.1)
        } else {
            (st.0, Some(on))
        },
{
    let data = text + mode_sequence(param, on);
    let n = text.len() as int;
    let end = n + 3 + param.len();
    assert forall|k: int| 0 <= k < n implies data[k] != 27 by {
        assert(data[k] == text[k]);
    }
    lemma_scan_plain(data, 0, n, st);
    assert(csi_private_at(data, n));
    assert forall|k: int| n + 3 <= k < end implies 48 <= #[trigger] data[k] <= 57 by {
        assert(data[k] == param[k - n - 3]);
    }
    assert(data[end] == (if on { 104u8 } else { 108u8 }));
    lemma_params_end_digits(data, n + 3, end);
    assert(data.subrange(n + 3, end) =~= param);
    lemma_no_semicolon(param, 0);
    assert(split_params(param) == seq![param]);
    let st2 = apply_params(st, seq![param], on);
    assert(seq![param].drop_first() =~= Seq::<Seq<u8>>::empty());
    assert(apply_params(apply_param(st, param, on), Seq::<Seq<u8>>::empty(), on) == apply_param(st, param, on));
    assert(st2 == apply_param(st, param, on));
    assert(end + 1 == data.len());
    assert(modes_from(data, end + 1, st2) == st2);
    assert(modes_from(data, n, st) == st2);
    if param != seq![49u8] {
        assert(param.len() == 4);
    }
}

} // verus!
