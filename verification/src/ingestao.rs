//! From rows of numbers to grains: the shape that the rows must have, the
//! column that holds the group, and the placing of the grains on the field.
//! The rows arrive as words, one for each field; reading the file and
//! reading the numbers is the caller's part.

use vstd::prelude::*;
use crate::grao::Grao;
use crate::outros::Ponto;
use crate::sorteio::{sortear_intervalo, MARCA_V4, MASCARA_V4};

verus! {

/// The least number of fields in a row: the group is the third.
pub const MINIMO_DE_CAMPOS: usize = 3;

/// Why a table of rows cannot become grains.
#[derive(Clone, Copy, Debug, PartialEq, Eq, Structural)]
pub enum ErroIngestao {
    /// Row `linha` has fewer than three fields.
    LinhaCurta { linha: usize, campos: usize },
    /// Row `linha` has not as many fields as the first row.
    ColunasDiferentes { linha: usize, esperadas: usize, encontradas: usize },
}

/// Row `k` of `linhas` is well shaped: at least three fields, and as many as
/// the first row.
pub open spec fn linha_bem_formada(linhas: Seq<Vec<u64>>, k: int) -> bool {
    linhas[k]@.len() >= 3 && linhas[k]@.len() == linhas[0]@.len()
}

/// Index of the first row of `linhas`, among those below `ate`, that is not
/// well shaped, or `ate` if all of them are.
pub open spec fn primeira_ma(linhas: Seq<Vec<u64>>, ate: nat) -> int
    decreases ate,
{
    if ate == 0 {
        0
    } else {
        let antes = primeira_ma(linhas, (ate - 1) as nat);
        if antes < ate - 1 || !linha_bem_formada(linhas, ate - 1) {
            antes
        } else {
            ate as int
        }
    }
}

/// `primeira_ma` finds the first row that is not well shaped.
pub proof fn lema_primeira_ma(linhas: Seq<Vec<u64>>, ate: nat)
    ensures
        0 <= primeira_ma(linhas, ate) <= ate,
        forall|j: int| 0 <= j < primeira_ma(linhas, ate) ==> linha_bem_formada(linhas, j),
        primeira_ma(linhas, ate) < ate ==> !linha_bem_formada(linhas, primeira_ma(linhas, ate)),
    decreases ate,
{
    if ate > 0 {
        lema_primeira_ma(linhas, (ate - 1) as nat);
    }
}

/// The error that row `k` gives, which is not well shaped.
pub open spec fn erro_da_linha(linhas: Seq<Vec<u64>>, k: int) -> ErroIngestao {
    if linhas[k]@.len() < 3 {
        ErroIngestao::LinhaCurta { linha: k as usize, campos: linhas[k]@.len() as usize }
    } else {
        ErroIngestao::ColunasDiferentes {
            linha: k as usize,
            esperadas: linhas[0]@.len() as usize,
            encontradas: linhas[k]@.len() as usize,
        }
    }
}

/// Checks the shape of a table: every row must have at least three fields
/// and as many as the first. Gives the number of fields of a row (zero for a
/// table without rows), or the error of the first row that breaks the rule;
/// no row is skipped.
pub fn conferir_linhas(linhas: &Vec<Vec<u64>>) -> (r: Result<usize, ErroIngestao>)
    ensures
        primeira_ma(linhas@, linhas@.len()) == linhas@.len() ==> r == Ok::<usize, ErroIngestao>(
            if linhas@.len() == 0 {
                0usize
            } else {
                linhas@[0]@.len() as usize
            },
        ),
        primeira_ma(linhas@, linhas@.len()) < linhas@.len() ==> r == Err::<usize, ErroIngestao>(
            erro_da_linha(linhas@, primeira_ma(linhas@, linhas@.len())),
        ),
        r is Ok <==> forall|j: int| 0 <= j < linhas@.len() ==> linha_bem_formada(linhas@, j),
{
    let n = linhas.len();
    proof {
        lema_primeira_ma(linhas@, n as nat);
    }
    if n == 0 {
        return Ok(0);
    }
    let esperadas = linhas[0].len();
    let mut i: usize = 0;
    while i < n
        invariant
            n == linhas.len(),
            n > 0,
            0 <= i <= n,
            esperadas == linhas@[0]@.len(),
            primeira_ma(linhas@, i as nat) == i,
        decreases n - i,
    {
        let campos = linhas[i].len();
        if campos < MINIMO_DE_CAMPOS {
            proof {
                assert(!linha_bem_formada(linhas@, i as int));
                lema_para_na_primeira(linhas@, i as int, n as nat);
            }
            return Err(ErroIngestao::LinhaCurta { linha: i, campos });
        }
        if campos != esperadas {
            proof {
                assert(!linha_bem_formada(linhas@, i as int));
                lema_para_na_primeira(linhas@, i as int, n as nat);
            }
            return Err(ErroIngestao::ColunasDiferentes { linha: i, esperadas, encontradas: campos });
        }
        i = i + 1;
    }
    Ok(esperadas)
}

proof fn lema_para_na_primeira(linhas: Seq<Vec<u64>>, k: int, ate: nat)
    requires
        0 <= k < ate,
        primeira_ma(linhas, k as nat) == k,
        !linha_bem_formada(linhas, k),
    ensures
        primeira_ma(linhas, ate) == k,
    decreases ate,
{
    if ate > k + 1 {
        lema_para_na_primeira(linhas, k, (ate - 1) as nat);
    }
}

/// The feature words of a row: the second field, the first, then the fourth
/// and all that follow. The third field is the group.
pub open spec fn dados_da_linha(campos: Seq<u64>) -> Seq<u64> {
    seq![campos[1], campos[0]] + campos.skip(3)
}

/// Splits a row into the word of its group and the words of its features.
/// A row of fewer than three fields has no group.
pub fn separar_grupo(campos: &Vec<u64>) -> (r: Option<(u64, Vec<u64>)>)
    ensures
        campos@.len() < 3 ==> r is None,
        campos@.len() >= 3 ==> {
            &&& r matches Some(par)
            &&& par.0 == campos@[2]
            &&& par.1@ == dados_da_linha(campos@)
        },
{
    let n = campos.len();
    if n < MINIMO_DE_CAMPOS {
        return None;
    }
    let mut dados: Vec<u64> = Vec::new();
    dados.push(campos[1]);
    dados.push(campos[0]);
    let mut i: usize = 3;
    while i < n
        invariant
            n == campos.len(),
            3 <= i <= n,
            dados@ == seq![campos@[1], campos@[0]] + campos@.subrange(3, i as int),
        decreases n - i,
    {
        dados.push(campos[i]);
        i = i + 1;
    }
    assert(campos@.subrange(3, n as int) =~= campos@.skip(3));
    Some((campos[2], dados))
}

/// The grain was made of the row: it has the row's group and features, a
/// version 4 identifier, and coordinates from zero up to, but not including,
/// the sides of the field.
pub open spec fn montado_de(g: Grao, linha: (i32, Vec<u64>), tamanho: (i32, i32)) -> bool {
    &&& 0 <= g.posicao.x < tamanho.0
    &&& 0 <= g.posicao.y < tamanho.1
    &&& g.grupo == linha.0
    &&& g.dados@ == linha.1@
    &&& g.id & MASCARA_V4 == MARCA_V4
}

/// One grain for each row, in the order of the rows, with the row's group
/// and features, at a position drawn uniformly among the points of the field
/// with coordinates below its sides, and under its own fresh identifier. No
/// row gives no grain, whatever the field; to place a grain the field must
/// have sides of at least one.
pub fn montar_graos(linhas: Vec<(i32, Vec<u64>)>, tamanho_mapa: (i32, i32)) -> (graos: Vec<Grao>)
    requires
        linhas.len() > 0 ==> tamanho_mapa.0 >= 1 && tamanho_mapa.1 >= 1,
    ensures
        graos.len() == linhas.len(),
        forall|i: int|
            0 <= i < graos.len() ==> montado_de(#[trigger] graos[i], linhas[i], tamanho_mapa),
{
    let mut graos: Vec<Grao> = Vec::new();
    let n = linhas.len();
    let mut k: usize = 0;
    while k < n
        invariant
            n > 0 ==> tamanho_mapa.0 >= 1 && tamanho_mapa.1 >= 1,
            n == linhas.len(),
            0 <= k <= n,
            graos.len() == k,
            forall|i: int|
                0 <= i < graos.len() ==> montado_de(#[trigger] graos[i], linhas[i], tamanho_mapa),
        decreases n - k,
    {
        let x: i32 = sortear_intervalo(0, tamanho_mapa.0 - 1);
        let y: i32 = sortear_intervalo(0, tamanho_mapa.1 - 1);
        let grupo: i32 = linhas[k].0;
        graos.push(Grao::new(Ponto { x, y }, linhas[k].1.clone(), grupo));
        k = k + 1;
    }
    graos
}

} // verus!
