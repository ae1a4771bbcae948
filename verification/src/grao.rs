//! The grain: a positioned data item that carries a feature vector.

use vstd::prelude::*;
use crate::outros::{no_campo, Ponto};
use crate::sorteio::{novo_id, sortear_intervalo, MARCA_V4, MASCARA_V4};

verus! {

/// A clusterable data item.
///
/// `dados` holds the feature vector, one 64-bit word for each feature (the
/// IEEE 754 double-precision encoding of its value). The engine carries the
/// words along and never reads into them. `grupo` is a provenance label; no
/// decision depends on it.
#[derive(Debug)]
pub struct Grao {
    pub id: u128,
    pub posicao: Ponto,
    pub dados: Vec<u64>,
    pub grupo: i32,
}

/// The mathematical value of a grain.
pub struct GraoModelo {
    pub id: u128,
    pub posicao: Ponto,
    pub dados: Seq<u64>,
    pub grupo: i32,
}

/// What a grain is, apart from where it lies: this part never changes while
/// the grain exists.
pub struct Essencia {
    pub id: u128,
    pub dados: Seq<u64>,
    pub grupo: i32,
}

impl GraoModelo {
    /// The part of the grain that no operation alters.
    pub open spec fn essencia(self) -> Essencia {
        Essencia { id: self.id, dados: self.dados, grupo: self.grupo }
    }

    /// The same grain, lying at `p`.
    pub open spec fn posto_em(self, p: Ponto) -> GraoModelo {
        GraoModelo { id: self.id, posicao: p, dados: self.dados, grupo: self.grupo }
    }
}

impl View for Grao {
    type V = GraoModelo;

    open spec fn view(&self) -> GraoModelo {
        GraoModelo { id: self.id, posicao: self.posicao, dados: self.dados@, grupo: self.grupo }
    }
}

impl Clone for Grao {
    /// A copy with the same identity, position, features and group.
    fn clone(&self) -> (r: Self)
        ensures
            r@ == self@,
    {
        Grao { id: self.id, posicao: self.posicao, dados: self.dados.clone(), grupo: self.grupo }
    }
}

impl Grao {
    /// The grain lies on the field, carries `dados` and `grupo`, and has a
    /// version 4 identifier.
    pub open spec fn gerado_com(&self, tamanho: (i32, i32), dados: Seq<u64>, grupo: i32) -> bool {
        &&& no_campo(self.posicao, tamanho)
        &&& self.dados@ == dados
        &&& self.grupo == grupo
        &&& self.id & MASCARA_V4 == MARCA_V4
    }

    /// A grain at `posicao` with the given features and group, under a fresh
    /// random identifier (version 4).
    pub fn new(posicao: Ponto, dados: Vec<u64>, grupo: i32) -> (g: Grao)
        ensures
            g.posicao == posicao,
            g.dados@ == dados@,
            g.grupo == grupo,
            g.id & MASCARA_V4 == MARCA_V4,
    {
        Grao { id: novo_id(), posicao, dados, grupo }
    }
}

/// The views of a sequence of grains, in order.
pub open spec fn modelos(s: Seq<Grao>) -> Seq<GraoModelo> {
    s.map_values(|g: Grao| g@)
}

/// `numero` grains with the same features and group, each at a position drawn
/// uniformly on the field and under its own fresh identifier. A `numero` that
/// is not positive gives no grain, whatever the field; to place a grain the
/// field must have sides that are not negative.
pub fn gerar_graos(numero: i32, tamanho_mapa: (i32, i32), dados: Vec<u64>, grupo: i32) -> (graos:
    Vec<Grao>)
    requires
        numero > 0 ==> tamanho_mapa.0 >= 0 && tamanho_mapa.1 >= 0,
    ensures
        graos.len() == if numero > 0 { numero as int } else { 0 },
        forall|i: int|
            0 <= i < graos.len() ==> (#[trigger] graos[i]).gerado_com(tamanho_mapa, dados@, grupo),
{
    let mut graos: Vec<Grao> = Vec::new();
    let mut k: i32 = 0;
    while k < numero
        invariant
            numero > 0 ==> tamanho_mapa.0 >= 0 && tamanho_mapa.1 >= 0,
            0 <= k,
            numero > 0 ==> k <= numero,
            numero <= 0 ==> k == 0,
            graos.len() == k,
            forall|i: int|
                0 <= i < graos.len() ==> (#[trigger] graos[i]).gerado_com(
                    tamanho_mapa,
                    dados@,
                    grupo,
                ),
        decreases numero - k,
    {
        let x: i32 = sortear_intervalo(0, tamanho_mapa.0);
        let y: i32 = sortear_intervalo(0, tamanho_mapa.1);
        graos.push(Grao::new(Ponto { x, y }, dados.clone(), grupo));
        k = k + 1;
    }
    graos
}

} // verus!
