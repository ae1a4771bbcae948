//! Colours for the groups of grains. Red and yellow are kept for the ants,
//! so a group never gets a colour that looks like either.

use vstd::prelude::*;
use crate::sorteio::sortear_byte;

verus! {

/// A colour, as red, green and blue.
#[derive(Clone, Copy, Debug, PartialEq, Eq, Structural)]
pub struct Cor {
    pub r: u8,
    pub g: u8,
    pub b: u8,
}

/// The colour reads as red (strong red, weak green and blue) or as yellow
/// (strong red and green, weak blue).
pub open spec fn semelhante_vermelho_ou_amarelo(cor: Cor) -> bool {
    ||| cor.r > 200 && cor.g < 100 && cor.b < 100
    ||| cor.r > 200 && cor.g > 200 && cor.b < 100
}

/// Whether a colour looks like red or like yellow.
pub fn cor_semelhante_vermelho_ou_amarelo(cor: &Cor) -> (s: bool)
    ensures
        s == semelhante_vermelho_ou_amarelo(*cor),
{
    if cor.r > 200 && cor.g < 100 && cor.b < 100 {
        return true;
    }
    if cor.r > 200 && cor.g > 200 && cor.b < 100 {
        return true;
    }
    false
}

/// A colour of the candidate that was drawn, unless it looks like red or
/// yellow.
pub fn aceitar_cor(r: u8, g: u8, b: u8) -> (c: Option<Cor>)
    ensures
        c == if semelhante_vermelho_ou_amarelo(Cor { r, g, b }) {
            None::<Cor>
        } else {
            Some(Cor { r, g, b })
        },
{
    let cor = Cor { r, g, b };
    if cor_semelhante_vermelho_ou_amarelo(&cor) {
        None
    } else {
        Some(cor)
    }
}

/// One attempt at a random colour for a group: three bytes drawn uniformly,
/// handed out unless they look like red or yellow. The caller repeats the
/// attempt until it gets a colour; how often that takes has no bound.
pub fn tentar_cor_aleatoria() -> (c: Option<Cor>)
    ensures
        exists|r: u8, g: u8, b: u8| c == #[trigger] cor_do_sorteio(r, g, b),
        c matches Some(cor) ==> !semelhante_vermelho_ou_amarelo(cor),
{
    let r: u8 = sortear_byte();
    let g: u8 = sortear_byte();
    let b: u8 = sortear_byte();
    let c = aceitar_cor(r, g, b);
    assert(c == cor_do_sorteio(r, g, b));
    c
}

/// What one attempt gives when the three bytes drawn are `r`, `g` and `b`:
/// the colour made of them, or nothing when that colour looks like red or
/// yellow. The bytes decide the outcome, and nothing else does.
pub open spec fn cor_do_sorteio(r: u8, g: u8, b: u8) -> Option<Cor> {
    if semelhante_vermelho_ou_amarelo(Cor { r, g, b }) {
        None
    } else {
        Some(Cor { r, g, b })
    }
}

} // verus!
