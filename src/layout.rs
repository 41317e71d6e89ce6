use vstd::prelude::*;

verus! {

/// How tall a band wants to be.
#[derive(Clone, Copy, Debug, PartialEq, Eq, Structural)]
pub enum SizePolicy {
    /// Exactly this many rows.
    Exact(u16),
    /// At least this many rows.
    AtLeast(u16),
}

/// The rows a band asks for before any space is shared out.
pub open spec fn base_rows(p: SizePolicy) -> nat {
    match p {
        SizePolicy::Exact(n) => n as nat,
        SizePolicy::AtLeast(n) => n as nat,
    }
}

/// A rectangle of terminal cells.
#[derive(Clone, Copy, Debug, PartialEq, Eq, Structural)]
pub struct Rect {
    pub x: u16,
    pub y: u16,
    pub width: u16,
    pub height: u16,
}

/// The terminal area of `width` by `height` cells less a margin of one cell
/// on every side; nothing is left when either side is under two cells.
pub open spec fn interior(width: u16, height: u16) -> Rect {
    if width < 2 || height < 2 {
        Rect { x: 0, y: 0, width: 0, height: 0 }
    } else {
        Rect { x: 1, y: 1, width: (width - 2) as u16, height: (height - 2) as u16 }
    }
}

/// The rows that the bands before position `i` ask for together.
pub open spec fn rows_asked_before(p: Seq<SizePolicy>, i: int) -> nat
    decreases i,
{
    if i <= 0 {
        0
    } else {
        rows_asked_before(p, i - 1) + base_rows(p[i - 1])
    }
}

/// Where band `i` starts, counted in rows from the top of the interior.
pub open spec fn band_offset(p: Seq<SizePolicy>, avail: nat, i: int) -> nat {
    let asked = rows_asked_before(p, i);
    if asked < avail {
        asked
    } else {
        avail
    }
}

/// The height of band `i` when `avail` rows are shared out: the bands take
/// what they ask for in order, as long as rows remain, and the last band
/// takes all the rows that are left.
pub open spec fn band_height(p: Seq<SizePolicy>, avail: nat, i: int) -> nat {
    let left = (avail - band_offset(p, avail, i)) as nat;
    if i == p.len() - 1 {
        left
    } else if base_rows(p[i]) < left {
        base_rows(p[i])
    } else {
        left
    }
}

/// The heights of the first `k` bands added up.
pub open spec fn heights_total(p: Seq<SizePolicy>, avail: nat, k: int) -> nat
    decreases k,
{
    if k <= 0 {
        0
    } else {
        heights_total(p, avail, k - 1) + band_height(p, avail, k - 1)
    }
}

/// The rectangle of band `i` for a terminal of `width` by `height` cells.
pub open spec fn band_rect(p: Seq<SizePolicy>, width: u16, height: u16, i: int) -> Rect {
    let inner = interior(width, height);
    Rect {
        x: inner.x,
        y: (inner.y + band_offset(p, inner.height as nat, i)) as u16,
        width: inner.width,
        height: band_height(p, inner.height as nat, i) as u16,
    }
}

proof fn lemma_offsets_step(p: Seq<SizePolicy>, avail: nat, i: int)
    requires
        0 <= i < p.len() - 1,
    ensures
        band_offset(p, avail, i + 1) == band_offset(p, avail, i) + band_height(p, avail, i),
{
}

proof fn lemma_heights_so_far(p: Seq<SizePolicy>, avail: nat, k: int)
    requires
        0 <= k < p.len(),
    ensures
        heights_total(p, avail, k) == band_offset(p, avail, k),
    decreases k,
{
    if k > 0 {
        lemma_heights_so_far(p, avail, k - 1);
        lemma_offsets_step(p, avail, k - 1);
    }
}

/// The bands tile the interior: their heights add up to the interior's
/// height, each band starts where the one before it ends, and when the
/// interior holds what all bands ask for, every band gets at least that.
pub proof fn lemma_bands_fill_interior(p: Seq<SizePolicy>, width: u16, height: u16)
    requires
        p.len() > 0,
    ensures
        heights_total(p, interior(width, height).height as nat, p.len() as int)
            == interior(width, height).height,
        band_offset(p, interior(width, height).height as nat, 0) == 0,
        forall|i: int|
            0 <= i < p.len() - 1 ==> #[trigger] band_offset(
                p,
                interior(width, height).height as nat,
                i + 1,
            ) == band_offset(p, interior(width, height).height as nat, i) + band_height(
                p,
                interior(width, height).height as nat,
                i,
            ),
        interior(width, height).height >= rows_asked_before(p, p.len() as int) ==> forall|i: int|
            0 <= i < p.len() ==> #[trigger] band_height(p, interior(width, height).height as nat, i)
                >= base_rows(p[i]),
{
    let avail = interior(width, height).height as nat;
    let n = p.len() as int;
    lemma_heights_so_far(p, avail, n - 1);
    assert forall|i: int| 0 <= i < n - 1 implies #[trigger] band_offset(p, avail, i + 1)
        == band_offset(p, avail, i) + band_height(p, avail, i) by {
        lemma_offsets_step(p, avail, i);
    }
    if avail >= rows_asked_before(p, n) {
        assert forall|i: int| 0 <= i < n implies #[trigger] band_height(p, avail, i) >= base_rows(
            p[i],
        ) by {
            lemma_asked_grows(p, i + 1, n);
        }
    }
}

proof fn lemma_asked_grows(p: Seq<SizePolicy>, i: int, j: int)
    requires
        0 <= i <= j,
    ensures
        rows_asked_before(p, i) <= rows_asked_before(p, j),
    decreases j - i,
{
    if i < j {
        lemma_asked_grows(p, i, j - 1);
    }
}

/// Splits the terminal of `width` by `height` cells, less a margin of one
/// cell, into one band per policy, top to bottom.
pub fn split_bands(width: u16, height: u16, policies: &Vec<SizePolicy>) -> (r: Vec<Rect>)
    ensures
        r.len() == policies.len(),
        forall|i: int| 0 <= i < r.len() ==> r[i] == band_rect(policies@, width, height, i),
{
    let (x, y, w, h): (u16, u16, u16, u16) = if width < 2 || height < 2 {
        (0, 0, 0, 0)
    } else {
        (1, 1, width - 2, height - 2)
    };
    let ghost p = policies@;
    let ghost avail = h as nat;
    let n = policies.len();
    let mut out: Vec<Rect> = Vec::new();
    let mut used: u16 = 0;
    let mut i: usize = 0;
    while i < n
        invariant
            p == policies@,
            n == p.len(),
            avail == h as nat,
            interior(width, height) == (Rect { x, y, width: w, height: h }),
            i <= n,
            out.len() == i,
            i < n ==> used as nat == band_offset(p, avail, i as int),
            forall|k: int| 0 <= k < i ==> out[k] == band_rect(p, width, height, k),
        decreases n - i,
    {
        let left = h - used;
        let asked = match policies[i] {
            SizePolicy::Exact(rows) => rows,
            SizePolicy::AtLeast(rows) => rows,
        };
        let rows = if i == n - 1 || left <= asked {
            left
        } else {
            asked
        };
        assert(rows as nat == band_height(p, avail, i as int));
        proof {
            if i + 1 < n {
                lemma_offsets_step(p, avail, i as int);
            }
        }
        out.push(Rect { x, y: y + used, width: w, height: rows });
        used = used + rows;
        i = i + 1;
    }
    out
}

} // verus!
