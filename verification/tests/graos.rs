use formigas::grao::{gerar_graos, Grao};
use formigas::outros::Ponto;
use formigas::sorteio::{MARCA_V4, MASCARA_V4};

#[test]
fn grao_novo_guarda_o_que_recebe() {
    let dados = vec![1.0f64.to_bits(), 2.5f64.to_bits()];
    let g = Grao::new(Ponto { x: 3, y: 4 }, dados.clone(), 7);
    assert_eq!(g.posicao, Ponto { x: 3, y: 4 });
    assert_eq!(g.dados, dados);
    assert_eq!(g.grupo, 7);
}

#[test]
fn identificador_e_de_versao_quatro() {
    for _ in 0..50 {
        let g = Grao::new(Ponto { x: 0, y: 0 }, vec![], 0);
        assert_eq!(g.id & MASCARA_V4, MARCA_V4);
        assert_eq!((g.id >> 76) & 0xf, 4);
        assert_eq!((g.id >> 62) & 0x3, 2);
    }
}

#[test]
fn identificadores_novos_diferem() {
    let a = Grao::new(Ponto { x: 0, y: 0 }, vec![], 0);
    let b = Grao::new(Ponto { x: 0, y: 0 }, vec![], 0);
    assert_ne!(a.id, b.id);
}

#[test]
fn copia_do_grao_e_igual_em_tudo() {
    let g = Grao::new(Ponto { x: 1, y: 2 }, vec![9, 8, 7], -3);
    let c = g.clone();
    assert_eq!(c.id, g.id);
    assert_eq!(c.posicao, g.posicao);
    assert_eq!(c.dados, g.dados);
    assert_eq!(c.grupo, g.grupo);
}

#[test]
fn gerar_graos_da_o_numero_pedido() {
    let dados = vec![0.25f64.to_bits()];
    let graos = gerar_graos(25, (10, 6), dados.clone(), 2);
    assert_eq!(graos.len(), 25);
    for g in graos.iter() {
        assert!(0 <= g.posicao.x && g.posicao.x <= 10);
        assert!(0 <= g.posicao.y && g.posicao.y <= 6);
        assert_eq!(g.dados, dados);
        assert_eq!(g.grupo, 2);
        assert_eq!(g.id & MASCARA_V4, MARCA_V4);
    }
}

#[test]
fn gerar_graos_sem_graos() {
    assert_eq!(gerar_graos(0, (10, 10), vec![1], 0).len(), 0);
    assert_eq!(gerar_graos(-5, (10, 10), vec![1], 0).len(), 0);
}

#[test]
fn gerar_graos_sem_graos_nao_olha_para_o_campo() {
    assert!(gerar_graos(0, (-1, -1), vec![1], 0).is_empty());
    assert!(gerar_graos(-2, (-1, 5), vec![1], 0).is_empty());
}

#[test]
fn gerar_graos_em_campo_de_um_ponto() {
    let graos = gerar_graos(10, (0, 0), vec![], 1);
    assert_eq!(graos.len(), 10);
    for g in graos.iter() {
        assert_eq!(g.posicao, Ponto { x: 0, y: 0 });
    }
}

#[test]
fn gerar_graos_espalha_as_posicoes() {
    // a draw that handed back one of its bounds would put every grain on
    // one column
    let graos = gerar_graos(200, (1000, 1000), vec![], 0);
    let primeira = graos[0].posicao.x;
    assert!(graos.iter().any(|g| g.posicao.x != primeira));
    let ids_iguais = graos.iter().filter(|g| g.id == graos[0].id).count();
    assert_eq!(ids_iguais, 1);
}
