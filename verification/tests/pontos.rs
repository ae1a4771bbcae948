use formigas::formiga::{deslocar, nova_posicao};
use formigas::outros::{distancia_chebyshev, na_vizinhanca, Ponto};

fn p(x: i32, y: i32) -> Ponto {
    Ponto { x, y }
}

#[test]
fn pontos_iguais_quando_as_coordenadas_sao_iguais() {
    assert_eq!(p(3, 4), p(3, 4));
    assert_ne!(p(3, 4), p(4, 3));
}

#[test]
fn distancia_chebyshev_e_a_maior_diferenca() {
    assert_eq!(distancia_chebyshev(&p(0, 0), &p(0, 0)), 0);
    assert_eq!(distancia_chebyshev(&p(0, 0), &p(-3, 2)), 3);
    assert_eq!(distancia_chebyshev(&p(5, 5), &p(6, 9)), 4);
    assert_eq!(distancia_chebyshev(&p(6, 9), &p(5, 5)), 4);
}

#[test]
fn distancia_chebyshev_nos_extremos_nao_transborda() {
    let a = p(i32::MIN, 0);
    let b = p(i32::MAX, 0);
    assert_eq!(distancia_chebyshev(&a, &b), u32::MAX);
    assert_eq!(distancia_chebyshev(&b, &a), u32::MAX);
}

#[test]
fn vizinhanca_de_raio_um_tem_nove_pontos() {
    let centro = p(5, 5);
    let mut dentro = 0;
    for x in 0..=10 {
        for y in 0..=10 {
            if na_vizinhanca(&centro, &p(x, y), 1) {
                dentro += 1;
                assert!((x - 5).abs() <= 1 && (y - 5).abs() <= 1);
            }
        }
    }
    assert_eq!(dentro, 9);
}

#[test]
fn vizinhanca_de_raio_zero_e_negativo() {
    assert!(na_vizinhanca(&p(2, 2), &p(2, 2), 0));
    assert!(!na_vizinhanca(&p(2, 2), &p(2, 3), 0));
    assert!(!na_vizinhanca(&p(2, 2), &p(2, 2), -1));
}

#[test]
fn deslocar_segue_as_oito_direcoes() {
    let o = p(5, 5);
    let t = (10, 10);
    assert_eq!(deslocar(&o, 1, t), p(5, 6));
    assert_eq!(deslocar(&o, 2, t), p(6, 5));
    assert_eq!(deslocar(&o, 3, t), p(5, 4));
    assert_eq!(deslocar(&o, 4, t), p(4, 5));
    assert_eq!(deslocar(&o, 5, t), p(6, 6));
    assert_eq!(deslocar(&o, 6, t), p(4, 6));
    assert_eq!(deslocar(&o, 7, t), p(6, 4));
    assert_eq!(deslocar(&o, 8, t), p(4, 4));
}

#[test]
fn deslocar_com_direcao_desconhecida_fica_parado() {
    let o = p(5, 5);
    assert_eq!(deslocar(&o, 0, (10, 10)), o);
    assert_eq!(deslocar(&o, 9, (10, 10)), o);
    assert_eq!(deslocar(&o, -4, (10, 10)), o);
}

#[test]
fn deslocar_da_a_volta_nas_bordas() {
    let t = (10, 7);
    // leaving on the left re-enters at the right limit
    assert_eq!(deslocar(&p(0, 3), 4, t), p(10, 3));
    // leaving on the right re-enters at zero
    assert_eq!(deslocar(&p(10, 3), 2, t), p(0, 3));
    // leaving at the bottom re-enters at the top limit
    assert_eq!(deslocar(&p(4, 0), 3, t), p(4, 7));
    // leaving at the top re-enters at zero
    assert_eq!(deslocar(&p(4, 7), 1, t), p(4, 0));
    // both axes at once
    assert_eq!(deslocar(&p(0, 0), 8, t), p(10, 7));
    assert_eq!(deslocar(&p(10, 7), 5, t), p(0, 0));
    assert_eq!(deslocar(&p(0, 7), 6, t), p(10, 0));
}

#[test]
fn deslocar_nos_limites_do_inteiro_nao_transborda() {
    let t = (i32::MAX, i32::MAX);
    assert_eq!(deslocar(&p(i32::MAX, i32::MAX), 5, t), p(0, 0));
    assert_eq!(deslocar(&p(i32::MIN, i32::MIN), 8, t), p(i32::MAX, i32::MAX));
}

#[test]
fn deslocar_de_fora_do_campo_volta_ao_campo() {
    assert_eq!(deslocar(&p(50, -9), 2, (10, 10)), p(0, 10));
}

#[test]
fn nova_posicao_e_um_dos_oito_vizinhos() {
    let o = p(5, 5);
    let t = (10, 10);
    let mut vistos: Vec<Ponto> = Vec::new();
    for _ in 0..400 {
        let n = nova_posicao(&o, t);
        assert!(n != o);
        assert!(distancia_chebyshev(&o, &n) == 1);
        assert!((1..=8).any(|d| deslocar(&o, d, t) == n));
        if !vistos.contains(&n) {
            vistos.push(n);
        }
    }
    // a draw that always gave the same direction would leave one point here
    assert!(vistos.len() >= 2);
}

#[test]
fn nova_posicao_fica_no_campo() {
    let t = (3, 2);
    let mut atual = p(0, 0);
    for _ in 0..500 {
        atual = nova_posicao(&atual, t);
        assert!(0 <= atual.x && atual.x <= 3);
        assert!(0 <= atual.y && atual.y <= 2);
    }
}
