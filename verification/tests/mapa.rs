use formigas::grao::Grao;
use formigas::mapa::Mapa;
use formigas::outros::Ponto;

fn grao(id: u128, x: i32, y: i32) -> Grao {
    Grao { id, posicao: Ponto { x, y }, dados: vec![id as u64], grupo: 0 }
}

fn ids(graos: &Vec<Grao>) -> Vec<u128> {
    graos.iter().map(|g| g.id).collect()
}

#[test]
fn mapa_novo_esta_vazio() {
    let m = Mapa::new((64, 32));
    assert_eq!(m.tamanho, (64, 32));
    assert!(m.graos.is_empty());
}

#[test]
fn adicionar_poe_no_fim() {
    let mut m = Mapa::new((10, 10));
    m.adicionar_grao(&grao(1, 1, 1));
    m.adicionar_grao(&grao(2, 2, 2));
    m.adicionar_grao(&grao(3, 1, 1));
    assert_eq!(ids(&m.graos), vec![1, 2, 3]);
    assert_eq!(m.graos[2].posicao, Ponto { x: 1, y: 1 });
    assert_eq!(m.graos[2].dados, vec![3]);
}

#[test]
fn vizinhos_sao_os_graos_dentro_do_raio_na_ordem_do_mapa() {
    let mut m = Mapa::new((10, 10));
    m.adicionar_grao(&grao(1, 5, 5));
    m.adicionar_grao(&grao(2, 7, 5));
    m.adicionar_grao(&grao(3, 6, 6));
    m.adicionar_grao(&grao(4, 5, 3));
    m.adicionar_grao(&grao(5, 4, 4));
    let centro = Ponto { x: 5, y: 5 };
    assert_eq!(ids(&m.vizinhos(&centro, 1)), vec![1, 3, 5]);
    assert_eq!(ids(&m.vizinhos(&centro, 2)), vec![1, 2, 3, 4, 5]);
    assert_eq!(ids(&m.vizinhos(&centro, 0)), vec![1]);
    assert_eq!(ids(&m.vizinhos(&centro, -1)), Vec::<u128>::new());
    // the store is not changed by a query
    assert_eq!(ids(&m.graos), vec![1, 2, 3, 4, 5]);
}

#[test]
fn vizinhos_sao_copias() {
    let mut m = Mapa::new((10, 10));
    m.adicionar_grao(&grao(1, 5, 5));
    let mut perto = m.vizinhos(&Ponto { x: 5, y: 5 }, 1);
    perto[0].posicao = Ponto { x: 0, y: 0 };
    assert_eq!(m.graos[0].posicao, Ponto { x: 5, y: 5 });
}

#[test]
fn grao_em_da_o_primeiro_na_posicao() {
    let mut m = Mapa::new((10, 10));
    m.adicionar_grao(&grao(1, 1, 1));
    m.adicionar_grao(&grao(2, 5, 5));
    m.adicionar_grao(&grao(3, 5, 5));
    let achado = m.grao_em(&Ponto { x: 5, y: 5 });
    assert_eq!(achado.map(|g| g.id), Some(2));
    assert!(m.grao_em(&Ponto { x: 5, y: 6 }).is_none());
    assert!(m.ha_grao_na_posicao(&Ponto { x: 1, y: 1 }));
    assert!(!m.ha_grao_na_posicao(&Ponto { x: 1, y: 2 }));
}

#[test]
fn remover_tira_pelo_identificador() {
    let mut m = Mapa::new((10, 10));
    m.adicionar_grao(&grao(1, 1, 1));
    m.adicionar_grao(&grao(2, 5, 5));
    m.adicionar_grao(&grao(3, 5, 5));
    let tirado = m.remover_grao(2).expect("the grain is in the store");
    assert_eq!(tirado.id, 2);
    assert_eq!(tirado.posicao, Ponto { x: 5, y: 5 });
    assert_eq!(tirado.dados, vec![2]);
    assert_eq!(ids(&m.graos), vec![1, 3]);
}

#[test]
fn remover_duas_vezes_so_entrega_uma() {
    // two ants chose the same grain: the second finds it gone, and that is
    // no error
    let mut m = Mapa::new((10, 10));
    m.adicionar_grao(&grao(1, 1, 1));
    m.adicionar_grao(&grao(2, 5, 5));
    assert!(m.remover_grao(2).is_some());
    assert!(m.remover_grao(2).is_none());
    assert_eq!(ids(&m.graos), vec![1]);
}

#[test]
fn remover_de_um_mapa_vazio() {
    let mut m = Mapa::new((10, 10));
    assert!(m.remover_grao(9).is_none());
    assert!(m.graos.is_empty());
}

#[test]
fn remover_com_identificadores_repetidos_tira_o_primeiro() {
    let mut m = Mapa::new((10, 10));
    m.adicionar_grao(&grao(4, 1, 1));
    m.adicionar_grao(&grao(4, 2, 2));
    let tirado = m.remover_grao(4).expect("a grain has the identifier");
    assert_eq!(tirado.posicao, Ponto { x: 1, y: 1 });
    assert_eq!(m.graos.len(), 1);
    assert_eq!(m.graos[0].posicao, Ponto { x: 2, y: 2 });
}
