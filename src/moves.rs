use vstd::prelude::*;
use crate::pieces::{opposite_spec, PieceColor, PieceMove, PieceType};
use crate::rules::{
    abs, at, at_coord, attacked, attacks, bishop_line, forward, holds_color, home_row, in_check, max,
    touched, offset, path_clear, pawn_row, rook_line, sign, Board, Square, en_passant, castling,
    pseudo_move, apply, legal_move,
};

verus! {

/// The content of the cell (r, c).
pub fn get_square(b: &Board, r: usize, c: usize) -> (sq: Square)
    requires
        r < 8,
        c < 8,
    ensures
        sq == at(b@, r as int, c as int),
{
    b[r * 8 + c]
}

fn is_empty(sq: Square) -> (r: bool)
    ensures
        r == (sq is None),
{
    match sq {
        Some(_) => false,
        None => true,
    }
}

fn is_color(sq: Square, color: PieceColor) -> (r: bool)
    ensures
        r == holds_color(sq, color),
{
    match sq {
        Some((_, c)) => c == color,
        None => false,
    }
}

fn forward_step(color: PieceColor) -> (r: i64)
    ensures
        r == forward(color),
{
    match color {
        PieceColor::White => -1,
        PieceColor::Black => 1,
    }
}

fn home_row_of(color: PieceColor) -> (r: usize)
    ensures
        r == home_row(color),
{
    match color {
        PieceColor::White => 7,
        PieceColor::Black => 0,
    }
}

fn pawn_row_of(color: PieceColor) -> (r: i64)
    ensures
        r == pawn_row(color),
{
    match color {
        PieceColor::White => 6,
        PieceColor::Black => 1,
    }
}

fn abs_i64(x: i64) -> (r: i64)
    requires
        -100 <= x <= 100,
    ensures
        r == abs(x as int),
{
    if x < 0 { -x } else { x }
}

fn sign_i64(x: i64) -> (r: i64)
    ensures
        r == sign(x as int),
{
    if x > 0 { 1 } else if x < 0 { -1 } else { 0 }
}

/// Whether the cells strictly between two cells on one line are all empty.
fn is_path_clear(b: &Board, fr: usize, fc: usize, tr: usize, tc: usize) -> (ok: bool)
    requires
        fr < 8,
        fc < 8,
        tr < 8,
        tc < 8,
        rook_line(fr as int, fc as int, tr as int, tc as int)
            || bishop_line(fr as int, fc as int, tr as int, tc as int),
    ensures
        ok == path_clear(b@, fr as int, fc as int, tr as int, tc as int),
{
    let ghost (gfr, gfc, gtr, gtc) = (fr as int, fc as int, tr as int, tc as int);
    let dr: i64 = tr as i64 - fr as i64;
    let dc: i64 = tc as i64 - fc as i64;
    let sr = sign_i64(dr);
    let sc = sign_i64(dc);
    let adr = abs_i64(dr);
    let adc = abs_i64(dc);
    let n: i64 = if adr >= adc { adr } else { adc };
    let mut k: i64 = 1;
    let mut r: i64 = fr as i64 + sr;
    let mut c: i64 = fc as i64 + sc;
    while k < n
        invariant
            fr < 8,
            fc < 8,
            tr < 8,
            tc < 8,
            gfr == fr as int,
            gfc == fc as int,
            gtr == tr as int,
            gtc == tc as int,
            rook_line(gfr, gfc, gtr, gtc) || bishop_line(gfr, gfc, gtr, gtc),
            dr == gtr - gfr,
            dc == gtc - gfc,
            sr == sign(dr as int),
            sc == sign(dc as int),
            n == max(abs(dr as int), abs(dc as int)),
            1 <= k <= n,
            r == gfr + offset(k as int, sr as int),
            c == gfc + offset(k as int, sc as int),
            forall|j: int|
                1 <= j < k ==> (#[trigger] at(b@, gfr + offset(j, sign(gtr - gfr)), gfc + offset(j, sign(gtc - gfc)))) is None,
        decreases n - k,
    {
        proof {
            if dr != 0 {
                assert(abs(dr as int) == n);
            }
            if dc != 0 {
                assert(abs(dc as int) == n);
            }
        }
        assert(0 <= r < 8 && 0 <= c < 8);
        if !is_empty(get_square(b, r as usize, c as usize)) {
            assert(r == gfr + offset(k as int, sign(gtr - gfr)));
            assert(c == gfc + offset(k as int, sign(gtc - gfc)));
            assert(!(at(b@, gfr + offset(k as int, sign(gtr - gfr)), gfc + offset(k as int, sign(gtc - gfc))) is None));
            return false;
        }
        k = k + 1;
        r = r + sr;
        c = c + sc;
    }
    true
}

/// Whether the piece on (fr, fc) strikes (tr, tc).
pub fn is_attacking(b: &Board, fr: usize, fc: usize, tr: usize, tc: usize) -> (r: bool)
    requires
        fr < 8,
        fc < 8,
        tr < 8,
        tc < 8,
    ensures
        r == attacks(b@, fr as int, fc as int, tr as int, tc as int),
{
    let dr: i64 = tr as i64 - fr as i64;
    let dc: i64 = tc as i64 - fc as i64;
    let adr = abs_i64(dr);
    let adc = abs_i64(dc);
    let rook = (fr == tr) != (fc == tc);
    let bishop = adr == adc && fr != tr;
    match get_square(b, fr, fc) {
        None => false,
        Some((kind, color)) => match kind {
            PieceType::Pawn => dr == forward_step(color) && adc == 1,
            PieceType::Knight => (adr == 1 && adc == 2) || (adr == 2 && adc == 1),
            PieceType::King => adr <= 1 && adc <= 1 && !(dr == 0 && dc == 0),
            PieceType::Rook => rook && is_path_clear(b, fr, fc, tr, tc),
            PieceType::Bishop => bishop && is_path_clear(b, fr, fc, tr, tc),
            PieceType::Queen => (rook || bishop) && is_path_clear(b, fr, fc, tr, tc),
        },
    }
}

/// Whether some piece of `by` strikes (tr, tc).
pub fn is_attacked(b: &Board, tr: usize, tc: usize, by: PieceColor) -> (r: bool)
    requires
        tr < 8,
        tc < 8,
    ensures
        r == attacked(b@, tr as int, tc as int, by),
{
    let mut fr: usize = 0;
    while fr < 8
        invariant
            fr <= 8,
            tr < 8,
            tc < 8,
            forall|r: int, c: int|
                0 <= r < fr && 0 <= c < 8 && holds_color(at(b@, r, c), by)
                    ==> !(#[trigger] attacks(b@, r, c, tr as int, tc as int)),
        decreases 8 - fr,
    {
        let mut fc: usize = 0;
        while fc < 8
            invariant
                fr < 8,
                fc <= 8,
                tr < 8,
                tc < 8,
                forall|r: int, c: int|
                    ((0 <= r < fr && 0 <= c < 8) || (r == fr && 0 <= c < fc)) && holds_color(at(b@, r, c), by)
                        ==> !(#[trigger] attacks(b@, r, c, tr as int, tc as int)),
            decreases 8 - fc,
        {
            if is_color(get_square(b, fr, fc), by) && is_attacking(b, fr, fc, tr, tc) {
                assert(attacks(b@, fr as int, fc as int, tr as int, tc as int));
                return true;
            }
            fc += 1;
        }
        fr += 1;
    }
    false
}

/// Whether a king of `color` stands on a struck cell.
pub fn is_king_attacked(b: &Board, color: PieceColor) -> (r: bool)
    ensures
        r == in_check(b@, color),
{
    let opp = color.opposite();
    let mut r: usize = 0;
    while r < 8
        invariant
            r <= 8,
            opp == opposite_spec(color),
            forall|i: int, j: int|
                0 <= i < r && 0 <= j < 8 && at(b@, i, j) == Some((PieceType::King, color))
                    ==> !(#[trigger] attacked(b@, i, j, opp)),
        decreases 8 - r,
    {
        let mut c: usize = 0;
        while c < 8
            invariant
                r < 8,
                c <= 8,
                opp == opposite_spec(color),
                forall|i: int, j: int|
                    ((0 <= i < r && 0 <= j < 8) || (i == r && 0 <= j < c))
                        && at(b@, i, j) == Some((PieceType::King, color))
                        ==> !(#[trigger] attacked(b@, i, j, opp)),
            decreases 8 - c,
        {
            let is_king = match get_square(b, r, c) {
                Some((PieceType::King, k)) => k == color,
                _ => false,
            };
            if is_king && is_attacked(b, r, c, opp) {
                assert(attacked(b@, r as int, c as int, opp));
                return true;
            }
            c += 1;
        }
        r += 1;
    }
    false
}

/// Whether some ply of `hist` started or ended on (r, c).
fn has_touched(hist: &Vec<PieceMove>, r: usize, c: usize) -> (m: bool)
    ensures
        m == touched(hist@, r as int, c as int),
{
    let mut i: usize = 0;
    while i < hist.len()
        invariant
            i <= hist@.len(),
            forall|j: int|
                0 <= j < i ==> !(at_coord((#[trigger] hist@[j]).from, r as int, c as int) || at_coord(
                    hist@[j].to,
                    r as int,
                    c as int,
                )),
        decreases hist@.len() - i,
    {
        let m = hist[i];
        if (m.from.row as usize == r && m.from.col as usize == c) || (m.to.row as usize == r && m.to.col as usize
            == c) {
            assert(at_coord(hist@[i as int].from, r as int, c as int) || at_coord(hist@[i as int].to, r as int, c as int));
            return true;
        }
        assert(!(at_coord(hist@[i as int].from, r as int, c as int) || at_coord(hist@[i as int].to, r as int, c as int)));
        i += 1;
    }
    false
}

/// Whether the pawn on (fr, fc) takes en passant by moving to (tr, tc).
pub fn is_en_passant(b: &Board, hist: &Vec<PieceMove>, fr: usize, fc: usize, tr: usize, tc: usize) -> (r: bool)
    requires
        fr < 8,
        fc < 8,
        tr < 8,
        tc < 8,
    ensures
        r == en_passant(b@, hist@, fr as int, fc as int, tr as int, tc as int),
{
    match get_square(b, fr, fc) {
        Some((PieceType::Pawn, color)) => {
            if hist.len() == 0 {
                return false;
            }
            let m = hist[hist.len() - 1];
            let opp = color.opposite();
            let step: i64 = m.from.row as i64 - m.to.row as i64;
            let side: i64 = tc as i64 - fc as i64;
            let enemy_pawn = match get_square(b, fr, tc) {
                Some((PieceType::Pawn, c)) => c == opp,
                _ => false,
            };
            m.piece_type == PieceType::Pawn && m.piece_color == opp && m.to.row as usize == fr
                && m.to.col as usize == tc && m.from.col == m.to.col && m.from.row as i64 == pawn_row_of(opp)
                && (step == 2 || step == -2)
                && tr as i64 == fr as i64 + forward_step(color) && (side == 1 || side == -1)
                && is_empty(get_square(b, tr, tc)) && enemy_pawn
        },
        _ => false,
    }
}

/// Whether the king on (fr, fc) castles by moving to (tr, tc).
pub fn is_castling(b: &Board, hist: &Vec<PieceMove>, fr: usize, fc: usize, tr: usize, tc: usize) -> (r: bool)
    requires
        fr < 8,
        fc < 8,
        tr < 8,
        tc < 8,
    ensures
        r == castling(b@, hist@, fr as int, fc as int, tr as int, tc as int),
{
    match get_square(b, fr, fc) {
        Some((PieceType::King, color)) => {
            if !(fr == home_row_of(color) && fc == 4 && tr == fr && (tc == 6 || tc == 2)) {
                return false;
            }
            let rc: usize = if tc == 6 { 7 } else { 0 };
            let rt: usize = if tc == 6 { 5 } else { 3 };
            let own_rook = match get_square(b, fr, rc) {
                Some((PieceType::Rook, c)) => c == color,
                _ => false,
            };
            if !own_rook || has_touched(hist, fr, 4) || has_touched(hist, fr, rc) {
                return false;
            }
            let clear = if tc == 6 {
                is_empty(get_square(b, fr, 5)) && is_empty(get_square(b, fr, 6))
            } else {
                is_empty(get_square(b, fr, 1)) && is_empty(get_square(b, fr, 2)) && is_empty(
                    get_square(b, fr, 3),
                )
            };
            if !clear {
                proof {
                    if tc == 6 {
                        if !(at(b@, fr as int, 5) is None) {
                            assert(!(at(b@, fr as int, 5) is None));
                        } else {
                            assert(!(at(b@, fr as int, 6) is None));
                        }
                    } else {
                        if !(at(b@, fr as int, 1) is None) {
                            assert(!(at(b@, fr as int, 1) is None));
                        } else if !(at(b@, fr as int, 2) is None) {
                            assert(!(at(b@, fr as int, 2) is None));
                        } else {
                            assert(!(at(b@, fr as int, 3) is None));
                        }
                    }
                }
                return false;
            }
            let opp = color.opposite();
            !is_attacked(b, fr, 4, opp) && !is_attacked(b, fr, rt, opp) && !is_attacked(b, fr, tc, opp)
        },
        _ => false,
    }
}

/// Whether the piece on (fr, fc) may go to (tr, tc) by its pattern, ignoring the
/// safety of its king.
pub fn is_pseudo_move(b: &Board, hist: &Vec<PieceMove>, fr: usize, fc: usize, tr: usize, tc: usize) -> (r: bool)
    requires
        fr < 8,
        fc < 8,
        tr < 8,
        tc < 8,
    ensures
        r == pseudo_move(b@, hist@, fr as int, fc as int, tr as int, tc as int),
{
    let target = get_square(b, tr, tc);
    match get_square(b, fr, fc) {
        None => false,
        Some((kind, color)) => {
            if is_color(target, color) {
                return false;
            }
            match kind {
                PieceType::Pawn => {
                    let f = forward_step(color);
                    let push = if tc == fc && is_empty(target) {
                        if tr as i64 == fr as i64 + f {
                            true
                        } else if fr as i64 == pawn_row_of(color) && tr as i64 == fr as i64 + 2 * f {
                            is_empty(get_square(b, (fr as i64 + f) as usize, fc))
                        } else {
                            false
                        }
                    } else {
                        false
                    };
                    push || (is_attacking(b, fr, fc, tr, tc) && is_color(target, color.opposite()))
                        || is_en_passant(b, hist, fr, fc, tr, tc)
                },
                PieceType::King => is_attacking(b, fr, fc, tr, tc) || is_castling(b, hist, fr, fc, tr, tc),
                _ => is_attacking(b, fr, fc, tr, tc),
            }
        },
    }
}

/// The grid after the piece on (fr, fc) goes to (tr, tc), with the side effects of
/// castling and en passant.
pub fn apply_move(b: &Board, hist: &Vec<PieceMove>, fr: usize, fc: usize, tr: usize, tc: usize) -> (r: Board)
    requires
        fr < 8,
        fc < 8,
        tr < 8,
        tc < 8,
    ensures
        r@ == apply(b@, hist@, fr as int, fc as int, tr as int, tc as int),
{
    let p = b[fr * 8 + fc];
    let mut nb: Board = *b;
    if is_castling(b, hist, fr, fc, tr, tc) {
        let color = p.unwrap().1;
        let rc: usize = if tc == 6 { 7 } else { 0 };
        let rt: usize = if tc == 6 { 5 } else { 3 };
        nb[fr * 8 + rc] = None;
        nb[fr * 8 + rt] = Some((PieceType::Rook, color));
        nb[tr * 8 + tc] = p;
        nb[fr * 8 + fc] = None;
    } else if is_en_passant(b, hist, fr, fc, tr, tc) {
        nb[fr * 8 + tc] = None;
        nb[tr * 8 + tc] = p;
        nb[fr * 8 + fc] = None;
    } else {
        nb[tr * 8 + tc] = p;
        nb[fr * 8 + fc] = None;
    }
    nb
}

/// Whether `color` may move the piece on (fr, fc) to (tr, tc).
pub fn is_legal_move(
    b: &Board,
    hist: &Vec<PieceMove>,
    color: PieceColor,
    fr: usize,
    fc: usize,
    tr: usize,
    tc: usize,
) -> (r: bool)
    requires
        fr < 8,
        fc < 8,
        tr < 8,
        tc < 8,
    ensures
        r == legal_move(b@, hist@, color, fr as int, fc as int, tr as int, tc as int),
{
    if !is_pseudo_move(b, hist, fr, fc, tr, tc) || !is_color(get_square(b, fr, fc), color) {
        return false;
    }
    let nb = apply_move(b, hist, fr, fc, tr, tc);
    !is_king_attacked(&nb, color)
}

} // verus!
