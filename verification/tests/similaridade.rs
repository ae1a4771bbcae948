use formigas::grao::Grao;
use formigas::outros::Ponto;
use formigas::similaridade::{dimensao_comum, verificar_dimensao, DimensaoIncompativel};

fn palavras(valores: &[f64]) -> Vec<u64> {
    valores.iter().map(|v| v.to_bits()).collect()
}

fn grao(dados: &[f64]) -> Grao {
    Grao { id: 1, posicao: Ponto { x: 0, y: 0 }, dados: palavras(dados), grupo: 0 }
}

#[test]
fn vetores_de_tamanhos_tres_e_dois_sao_incompativeis() {
    let a = palavras(&[1.0, 2.0, 3.0]);
    let b = palavras(&[1.0, 2.0]);
    assert_eq!(
        verificar_dimensao(&a, &b),
        Err(DimensaoIncompativel { esperada: 3, encontrada: 2 })
    );
}

#[test]
fn vetores_de_tamanhos_dois_e_tres_sao_incompativeis() {
    let a = palavras(&[1.0, 2.0]);
    let b = palavras(&[1.0, 2.0, 3.0]);
    assert_eq!(
        verificar_dimensao(&a, &b),
        Err(DimensaoIncompativel { esperada: 2, encontrada: 3 })
    );
}

#[test]
fn vetores_do_mesmo_tamanho_sao_compativeis() {
    let a = palavras(&[1.0, 2.0, 3.0]);
    let b = palavras(&[4.0, 5.0, 6.0]);
    assert_eq!(verificar_dimensao(&a, &b), Ok(3));
    assert_eq!(verificar_dimensao(&a, &a), Ok(3));
    assert_eq!(verificar_dimensao(&vec![], &vec![]), Ok(0));
}

#[test]
fn vizinhanca_vazia_tem_a_dimensao_do_grao() {
    assert_eq!(dimensao_comum(&grao(&[1.0, 1.0]), &vec![]), Ok(2));
}

#[test]
fn vizinhanca_de_uma_so_dimensao() {
    let perto = vec![grao(&[0.0, 1.0]), grao(&[2.0, 3.0]), grao(&[4.0, 5.0])];
    assert_eq!(dimensao_comum(&grao(&[1.0, 1.0]), &perto), Ok(2));
}

#[test]
fn vizinhanca_aponta_o_primeiro_vizinho_diferente() {
    let perto = vec![grao(&[0.0, 1.0]), grao(&[2.0]), grao(&[4.0, 5.0, 6.0])];
    assert_eq!(
        dimensao_comum(&grao(&[1.0, 1.0]), &perto),
        Err(DimensaoIncompativel { esperada: 2, encontrada: 1 })
    );
}
