//! Grid points and the distance that defines a neighbourhood.

use vstd::prelude::*;

verus! {

/// A point of the integer grid. Two points are equal when both coordinates
/// are.
#[derive(Clone, Copy, Debug, PartialEq, Eq, Structural)]
pub struct Ponto {
    pub x: i32,
    pub y: i32,
}

/// `p` lies on the field whose coordinates run over `0..=tamanho.0` and
/// `0..=tamanho.1`.
pub open spec fn no_campo(p: Ponto, tamanho: (i32, i32)) -> bool {
    0 <= p.x <= tamanho.0 && 0 <= p.y <= tamanho.1
}

/// Absolute difference of two coordinates.
pub open spec fn afastamento(a: int, b: int) -> int {
    if a >= b {
        a - b
    } else {
        b - a
    }
}

/// Chebyshev distance: the larger of the two coordinate differences.
pub open spec fn chebyshev(p1: Ponto, p2: Ponto) -> int {
    let dx = afastamento(p1.x as int, p2.x as int);
    let dy = afastamento(p1.y as int, p2.y as int);
    if dx >= dy {
        dx
    } else {
        dy
    }
}

/// `p2` lies in the square of half-side `raio` centred on `p1`.
pub open spec fn vizinho(p1: Ponto, p2: Ponto, raio: int) -> bool {
    chebyshev(p1, p2) <= raio
}

/// Chebyshev distance between two points.
pub fn distancia_chebyshev(p1: &Ponto, p2: &Ponto) -> (d: u32)
    ensures
        d == chebyshev(*p1, *p2),
{
    let dx: i64 = if p1.x >= p2.x {
        p1.x as i64 - p2.x as i64
    } else {
        p2.x as i64 - p1.x as i64
    };
    let dy: i64 = if p1.y >= p2.y {
        p1.y as i64 - p2.y as i64
    } else {
        p2.y as i64 - p1.y as i64
    };
    if dx >= dy {
        dx as u32
    } else {
        dy as u32
    }
}

/// Whether `p2` is within `raio` of `p1` in both coordinates. The point `p1`
/// itself is in its own neighbourhood exactly when `raio` is not negative.
pub fn na_vizinhanca(p1: &Ponto, p2: &Ponto, raio: i32) -> (r: bool)
    ensures
        r == vizinho(*p1, *p2, raio as int),
{
    raio >= 0 && distancia_chebyshev(p1, p2) <= raio as u32
}

} // verus!
