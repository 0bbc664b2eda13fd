use cruzamento::controlador::faz_nada::FazNada;
use cruzamento::controlador::fila::ordena_via;
use cruzamento::controlador::leis::{
    calcula_cruza_a_tempo, calcula_freada, calcula_livre, calcula_seguindo,
};
use cruzamento::controlador::semaforo::{Fase, Semaforo};
use cruzamento::controlador::{Controlador, Situacao};
use cruzamento::transito::Via;
use std::collections::HashMap;

const INTACTA: i32 = 12_345;

fn sit(placa: u64, via: Via, pos_atual: i64, vel_atual: u32) -> Situacao {
    Situacao {
        placa,
        via,
        acel_max: 3_000_000,
        acel_min: -10_000_000,
        vel_max: 55_555_555,
        comprimento: 4_000_000,
        pos_atual,
        vel_atual,
        acel_atual: 0,
        acel_desejada: INTACTA,
        estou_vivo: 2,
    }
}

fn base(registros: &[Situacao]) -> HashMap<u64, Situacao> {
    let mut m = HashMap::new();
    for s in registros {
        m.insert(s.placa, *s);
    }
    m
}

fn em_amarelo(via_verde: Via, restam_amarelo: u32) -> Semaforo {
    let via_vermelho = if via_verde == Via::ViaH { Via::ViaV } else { Via::ViaH };
    Semaforo {
        tempo_verde: 13_000,
        tempo_amarelo: 5_000,
        restam_verde: 0,
        restam_amarelo,
        via_verde,
        via_vermelho,
        amarelo: true,
    }
}

fn desejada(m: &HashMap<u64, Situacao>, placa: u64) -> i32 {
    m[&placa].acel_desejada
}

#[test]
fn semaforo_novo_abre_a_via_h() {
    let s = Semaforo::new();
    assert_eq!(
        s,
        Semaforo {
            tempo_verde: 13_000,
            tempo_amarelo: 5_000,
            restam_verde: 13_000,
            restam_amarelo: 5_000,
            via_verde: Via::ViaH,
            via_vermelho: Via::ViaV,
            amarelo: false,
        }
    );
    assert_eq!(s.fase(Via::ViaH), Fase::Verde);
    assert_eq!(s.fase(Via::ViaV), Fase::Vermelho);
}

#[test]
fn fases_de_um_ciclo_completo() {
    let mut s = Semaforo::new();
    let mut m = HashMap::new();
    let mut ciclo = 0;
    while ciclo < 25 {
        s.estrategia(500, &mut m);
        assert_eq!(s.fase(Via::ViaH), Fase::Verde);
        assert_eq!(s.fase(Via::ViaV), Fase::Vermelho);
        assert_eq!(s.restam_verde, 13_000 - 500 * (ciclo + 1));
        ciclo += 1;
    }
    s.estrategia(500, &mut m);
    assert_eq!(s.fase(Via::ViaH), Fase::Amarelo);
    assert_eq!(s.fase(Via::ViaV), Fase::Vermelho);
    assert_eq!((s.restam_verde, s.restam_amarelo), (0, 5_000));
    ciclo = 0;
    while ciclo < 9 {
        s.estrategia(500, &mut m);
        assert_eq!(s.fase(Via::ViaH), Fase::Amarelo);
        assert_eq!(s.fase(Via::ViaV), Fase::Vermelho);
        assert_eq!(s.restam_amarelo, 5_000 - 500 * (ciclo + 1));
        ciclo += 1;
    }
    s.estrategia(500, &mut m);
    assert_eq!(s.fase(Via::ViaH), Fase::Vermelho);
    assert_eq!(s.fase(Via::ViaV), Fase::Verde);
    assert_eq!((s.restam_verde, s.restam_amarelo), (13_000, 0));
    assert_eq!((s.via_verde, s.via_vermelho), (Via::ViaV, Via::ViaH));
    ciclo = 0;
    while ciclo < 26 {
        s.estrategia(500, &mut m);
        ciclo += 1;
    }
    assert_eq!(s.fase(Via::ViaV), Fase::Amarelo);
    assert_eq!(s.fase(Via::ViaH), Fase::Vermelho);
    ciclo = 0;
    while ciclo < 10 {
        s.estrategia(500, &mut m);
        ciclo += 1;
    }
    assert_eq!(s.fase(Via::ViaH), Fase::Verde);
    assert_eq!(s.fase(Via::ViaV), Fase::Vermelho);
    assert_eq!((s.restam_verde, s.restam_amarelo), (13_000, 0));
}

#[test]
fn sempre_uma_via_aberta_e_a_outra_fechada() {
    let mut s = Semaforo::new();
    let mut m = HashMap::new();
    let tempos = [500, 1, 4_999, 13_000, 7, 12_999, 5_000, 0, 20_000, 300];
    let mut passo = 0;
    while passo < 400 {
        let antes = s;
        s.estrategia(tempos[passo % tempos.len()], &mut m);
        let h = s.fase(Via::ViaH);
        let v = s.fase(Via::ViaV);
        assert!((h == Fase::Vermelho) != (v == Fase::Vermelho));
        assert_ne!(s.via_verde, s.via_vermelho);
        assert!(s.restam_verde <= s.tempo_verde);
        assert!(s.restam_amarelo <= s.tempo_amarelo);
        if s.amarelo {
            assert!(s.restam_amarelo > 0);
            assert_eq!(s.restam_verde, 0);
        } else {
            assert!(s.restam_verde > 0);
        }
        assert_eq!((s.tempo_verde, s.tempo_amarelo), (antes.tempo_verde, antes.tempo_amarelo));
        passo += 1;
    }
}

#[test]
fn tempo_que_sobra_de_uma_fase_nao_passa_para_a_seguinte() {
    let mut s = Semaforo::new();
    let mut m = HashMap::new();
    s.estrategia(20_000, &mut m);
    assert!(s.amarelo);
    assert_eq!((s.restam_verde, s.restam_amarelo), (0, 5_000));
    s.estrategia(4_999, &mut m);
    assert!(s.amarelo);
    assert_eq!(s.restam_amarelo, 1);
    s.estrategia(1, &mut m);
    assert!(!s.amarelo);
    assert_eq!((s.via_verde, s.restam_verde), (Via::ViaV, 13_000));
    s.estrategia(0, &mut m);
    assert_eq!((s.via_verde, s.restam_verde), (Via::ViaV, 13_000));
}

#[test]
fn via_fechada_para_os_carros_em_fila_antes_do_cruzamento() {
    let mut s = Semaforo::new();
    let mut m = base(&[
        sit(3, Via::ViaV, -60_000_000, 10_000_000),
        sit(1, Via::ViaV, -10_000_000, 10_000_000),
        sit(2, Via::ViaV, -30_000_000, 10_000_000),
    ]);
    s.estrategia(500, &mut m);
    assert_eq!(desejada(&m, 1), -8_333_333);
    assert_eq!(desejada(&m, 2), -2_777_777);
    assert_eq!(desejada(&m, 3), -1_250_000);
}

#[test]
fn lugar_de_parada_conta_o_comprimento_de_quem_esta_na_frente() {
    let mut s = Semaforo::new();
    let mut longo = sit(1, Via::ViaV, -10_000_000, 10_000_000);
    longo.comprimento = 10_000_000;
    let mut m = base(&[longo, sit(2, Via::ViaV, -40_000_000, 10_000_000)]);
    s.estrategia(500, &mut m);
    assert_eq!(desejada(&m, 1), -8_333_333);
    assert_eq!(desejada(&m, 2), -2_272_727);
}

#[test]
fn frenagem_nunca_passa_do_limite_do_veiculo() {
    let mut s = Semaforo::new();
    let mut fraco = sit(2, Via::ViaV, -30_000_000, 10_000_000);
    fraco.acel_min = -1_000_000;
    let mut m = base(&[sit(1, Via::ViaV, -5_000_000, 20_000_000), fraco]);
    s.estrategia(500, &mut m);
    assert_eq!(desejada(&m, 1), -10_000_000);
    assert_eq!(desejada(&m, 2), -1_000_000);
}

#[test]
fn carro_que_passou_do_lugar_de_parada_freia_ate_parar() {
    let mut s = Semaforo::new();
    let mut m = base(&[sit(1, Via::ViaV, -3_000_000, 5_000_000)]);
    s.estrategia(500, &mut m);
    assert_eq!(desejada(&m, 1), -10_000_000);
    let mut m = base(&[sit(1, Via::ViaV, -4_000_000, 501)]);
    s.estrategia(500, &mut m);
    assert_eq!(desejada(&m, 1), -10_000_000);
    let mut m = base(&[sit(1, Via::ViaV, -4_000_000, 500)]);
    s.estrategia(500, &mut m);
    assert_eq!(desejada(&m, 1), 0);
    let mut m = base(&[sit(1, Via::ViaV, -1_000, 0)]);
    s.estrategia(500, &mut m);
    assert_eq!(desejada(&m, 1), 0);
    let mut m = base(&[sit(1, Via::ViaV, 2_000_000, 3_000_000)]);
    s.estrategia(500, &mut m);
    assert_eq!(desejada(&m, 1), -10_000_000);
    let mut m = base(&[sit(1, Via::ViaV, -4_000_001, 0)]);
    s.estrategia(500, &mut m);
    assert_eq!(desejada(&m, 1), 0);
}

#[test]
fn carros_na_mesma_posicao_se_ordenam_pela_placa() {
    let mut s = Semaforo::new();
    let mut m = base(&[sit(9, Via::ViaV, -30_000_000, 10_000_000), sit(2, Via::ViaV, -30_000_000, 10_000_000)]);
    s.estrategia(500, &mut m);
    assert_eq!(desejada(&m, 2), -1_923_076);
    assert_eq!(desejada(&m, 9), -2_777_777);
}

#[test]
fn ordem_da_via_vai_do_mais_adiantado_ao_mais_atrasado() {
    let m = base(&[
        sit(4, Via::ViaH, -70_000_000, 1),
        sit(1, Via::ViaV, -10_000_000, 2),
        sit(7, Via::ViaH, 3_000_000, 3),
        sit(2, Via::ViaH, -70_000_000, 4),
        sit(5, Via::ViaH, -70_000_001, 5),
        sit(6, Via::ViaV, -9_999_999, 6),
    ]);
    let h: Vec<u64> = ordena_via(&m, Via::ViaH).iter().map(|s| s.placa).collect();
    let v: Vec<u64> = ordena_via(&m, Via::ViaV).iter().map(|s| s.placa).collect();
    assert_eq!(h, vec![7, 2, 4, 5]);
    assert_eq!(v, vec![6, 1]);
    assert_eq!(ordena_via(&m, Via::ViaH)[1], m[&2]);
    assert!(ordena_via(&HashMap::new(), Via::ViaH).is_empty());
}

#[test]
fn primeiro_carro_da_via_aberta_busca_a_velocidade_de_cruzeiro() {
    let casos = [
        (0, 3_000_000),
        (19_999_999, 3_000_000),
        (20_000_000, 0),
        (22_222_222, 0),
        (24_444_444, 0),
        (24_444_445, -10_000_000),
        (55_555_555, -10_000_000),
    ];
    for (vel, esperada) in casos {
        let mut s = Semaforo::new();
        let mut m = base(&[sit(1, Via::ViaH, -50_000_000, vel)]);
        s.estrategia(500, &mut m);
        assert_eq!(desejada(&m, 1), esperada);
        assert_eq!(calcula_livre(&sit(1, Via::ViaH, -50_000_000, vel)), esperada);
    }
}

#[test]
fn dois_carros_a_vinte_metros_em_velocidade_de_cruzeiro() {
    let mut s = Semaforo::new();
    let mut m = base(&[
        sit(1, Via::ViaH, -100_000_000, 22_222_222),
        sit(2, Via::ViaH, -120_000_000, 22_222_222),
    ]);
    s.estrategia(500, &mut m);
    assert_eq!(desejada(&m, 1), 0);
    assert_eq!(desejada(&m, 2), -5_000_000);
}

#[test]
fn seguidor_com_folga_e_intervalo_de_tempo_segue_so_a_lei_da_velocidade() {
    let mut s = Semaforo::new();
    let mut m = base(&[
        sit(1, Via::ViaH, -60_000_000, 22_222_222),
        sit(2, Via::ViaH, -120_000_000, 22_222_222),
        sit(3, Via::ViaH, -149_000_000, 10_000_000),
        sit(4, Via::ViaH, -360_000_000, 30_000_000),
    ]);
    s.estrategia(500, &mut m);
    assert_eq!(desejada(&m, 1), 0);
    assert_eq!(desejada(&m, 2), 0);
    assert_eq!(desejada(&m, 3), 3_000_000);
    assert_eq!(desejada(&m, 4), -10_000_000);
}

#[test]
fn limite_do_intervalo_de_dois_segundos() {
    let lider = sit(1, Via::ViaH, -50_000_000, 22_222_222);
    let justo = sit(2, Via::ViaH, -50_000_000 - 4_000_000 - 44_444_444, 22_222_222);
    let perto = sit(2, Via::ViaH, -50_000_000 - 4_000_000 - 44_444_443, 22_222_222);
    assert_eq!(calcula_seguindo(&justo, &lider), 0);
    assert_eq!(calcula_seguindo(&perto, &lider), -5_000_000);
    let parado_colado = sit(2, Via::ViaH, -54_000_000, 0);
    assert_eq!(calcula_seguindo(&parado_colado, &lider), 3_000_000);
    let parado_em_cima = sit(2, Via::ViaH, -53_999_999, 0);
    assert_eq!(calcula_seguindo(&parado_em_cima, &lider), -5_000_000);
}

#[test]
fn seguidor_mais_rapido_freia_se_alcanca_o_da_frente_em_dez_segundos() {
    let lider = sit(1, Via::ViaH, -50_000_000, 18_000_000);
    let longe = sit(2, Via::ViaH, -50_000_000 - 4_000_000 - 60_000_000, 24_000_000);
    let perto = sit(2, Via::ViaH, -50_000_000 - 4_000_000 - 59_999_999, 24_000_000);
    assert_eq!(calcula_seguindo(&longe, &lider), 0);
    assert_eq!(calcula_seguindo(&perto, &lider), -5_000_000);
    let mut s = Semaforo::new();
    let mut m = base(&[lider, perto]);
    s.estrategia(500, &mut m);
    assert_eq!(desejada(&m, 1), 3_000_000);
    assert_eq!(desejada(&m, 2), -5_000_000);
}

#[test]
fn meia_frenagem_arredonda_para_baixo() {
    let lider = sit(1, Via::ViaH, -50_000_000, 0);
    let mut seguidor = sit(2, Via::ViaH, -54_000_001, 10_000_000);
    seguidor.acel_min = -7;
    assert_eq!(calcula_seguindo(&seguidor, &lider), -4);
    seguidor.acel_min = -8;
    assert_eq!(calcula_seguindo(&seguidor, &lider), -4);
    seguidor.acel_min = i32::MIN;
    assert_eq!(calcula_seguindo(&seguidor, &lider), -1_073_741_824);
    seguidor.acel_min = 0;
    assert_eq!(calcula_seguindo(&seguidor, &lider), 0);
}

#[test]
fn no_amarelo_quem_cruza_a_tempo_acelera() {
    let mut s = em_amarelo(Via::ViaH, 3_500);
    let mut m = base(&[sit(1, Via::ViaH, -20_000_000, 22_222_222)]);
    s.estrategia(500, &mut m);
    assert_eq!(s.restam_amarelo, 3_000);
    assert_eq!(desejada(&m, 1), 3_000_000);
}

#[test]
fn no_amarelo_quem_nao_cruza_a_tempo_freia_para_o_lugar_de_parada() {
    let mut s = em_amarelo(Via::ViaH, 3_500);
    let mut m = base(&[sit(1, Via::ViaH, -100_000_000, 22_222_222)]);
    s.estrategia(500, &mut m);
    assert_eq!(desejada(&m, 1), -2_572_016);
    let mut s = em_amarelo(Via::ViaH, 600);
    let mut m = base(&[sit(1, Via::ViaH, -20_000_000, 22_222_222)]);
    s.estrategia(500, &mut m);
    assert_eq!(s.restam_amarelo, 100);
    assert_eq!(desejada(&m, 1), -10_000_000);
}

#[test]
fn no_amarelo_o_lugar_de_parada_conta_todos_os_carros_da_frente() {
    let mut s = em_amarelo(Via::ViaV, 3_500);
    let mut m = base(&[
        sit(1, Via::ViaV, -20_000_000, 22_222_222),
        sit(2, Via::ViaV, -100_000_000, 22_222_222),
        sit(3, Via::ViaH, -100_000_000, 22_222_222),
    ]);
    s.estrategia(500, &mut m);
    assert_eq!(desejada(&m, 1), 3_000_000);
    assert_eq!(desejada(&m, 2), -2_805_836);
    assert_eq!(desejada(&m, 3), -2_572_016);
}

#[test]
fn no_amarelo_carro_parado_no_lugar_fica_parado_se_nao_cruza_a_tempo() {
    let mut s = em_amarelo(Via::ViaH, 1_500);
    let mut m = base(&[sit(1, Via::ViaH, -4_000_000, 0)]);
    s.estrategia(500, &mut m);
    assert_eq!(s.restam_amarelo, 1_000);
    assert_eq!(desejada(&m, 1), 0);
    let mut s = em_amarelo(Via::ViaH, 3_500);
    let mut m = base(&[sit(1, Via::ViaH, -4_000_000, 0)]);
    s.estrategia(500, &mut m);
    assert_eq!(desejada(&m, 1), 3_000_000);
}

#[test]
fn limite_exato_de_cruzar_a_tempo_acelerando() {
    assert!(calcula_cruza_a_tempo(&sit(1, Via::ViaH, -72_166_666, 22_222_222), 3_000));
    assert!(!calcula_cruza_a_tempo(&sit(1, Via::ViaH, -72_166_667, 22_222_222), 3_000));
    let mut s = em_amarelo(Via::ViaH, 3_500);
    let mut m = base(&[sit(1, Via::ViaH, -72_166_667, 22_222_222)]);
    s.estrategia(500, &mut m);
    assert_eq!(desejada(&m, 1), -3_622_204);
}

#[test]
fn limite_exato_de_cruzar_a_tempo_chegando_a_velocidade_maxima() {
    assert!(calcula_cruza_a_tempo(&sit(1, Via::ViaV, -158_615_224, 55_000_000), 3_000));
    assert!(!calcula_cruza_a_tempo(&sit(1, Via::ViaV, -158_615_225, 55_000_000), 3_000));
    assert_eq!(calcula_freada(&sit(1, Via::ViaV, -158_615_225, 55_000_000), -4_000_000), -9_782_348);
}

#[test]
fn limite_exato_de_cruzar_a_tempo_sem_poder_acelerar() {
    let mut c = sit(1, Via::ViaH, -22_000_000, 10_000_000);
    c.acel_max = 0;
    assert!(calcula_cruza_a_tempo(&c, 3_000));
    c.pos_atual = -22_000_001;
    assert!(!calcula_cruza_a_tempo(&c, 3_000));
    let mut s = em_amarelo(Via::ViaH, 3_500);
    let mut m = base(&[c]);
    s.estrategia(500, &mut m);
    assert_eq!(desejada(&m, 1), -2_777_777);
    let mut no_limite = sit(1, Via::ViaH, -22_000_000, 55_555_555);
    no_limite.vel_atual = 10_000_000;
    no_limite.vel_max = 10_000_000;
    assert!(calcula_cruza_a_tempo(&no_limite, 3_000));
    no_limite.pos_atual = -22_000_001;
    assert!(!calcula_cruza_a_tempo(&no_limite, 3_000));
}

#[test]
fn quem_ja_saiu_do_cruzamento_cruza_a_tempo() {
    assert!(calcula_cruza_a_tempo(&sit(1, Via::ViaH, 8_000_000, 0), 0));
    assert!(!calcula_cruza_a_tempo(&sit(1, Via::ViaH, 7_999_999, 0), 0));
    assert!(calcula_cruza_a_tempo(&sit(1, Via::ViaH, 7_999_999, 0), 1));
    assert!(!calcula_cruza_a_tempo(&sit(1, Via::ViaH, 7_999_997, 0), 1));
    assert!(calcula_cruza_a_tempo(&sit(1, Via::ViaH, 7_999_997, 0), 2));
}

#[test]
fn estrategia_so_muda_a_aceleracao_desejada() {
    let registros = [
        sit(3, Via::ViaV, -60_000_000, 10_000_000),
        sit(1, Via::ViaH, -10_000_000, 10_000_000),
        sit(2, Via::ViaV, -30_000_000, 10_000_000),
        sit(8, Via::ViaH, 30_000_000, 0),
    ];
    let mut s = em_amarelo(Via::ViaV, 501);
    let mut passo = 0;
    let mut m = base(&registros);
    while passo < 3 {
        s.estrategia(500, &mut m);
        assert_eq!(m.len(), registros.len());
        for antes in registros {
            let depois = m[&antes.placa];
            assert_ne!(depois.acel_desejada, INTACTA);
            assert_eq!(Situacao { acel_desejada: INTACTA, ..depois }, antes);
        }
        passo += 1;
    }
}

#[test]
fn faz_nada_nao_pede_aceleracao_a_ninguem() {
    let registros = [
        sit(3, Via::ViaV, -60_000_000, 10_000_000),
        sit(1, Via::ViaH, -10_000_000, 50_000_000),
        sit(2, Via::ViaV, 3_000_000, 0),
    ];
    let mut n = FazNada::new();
    let mut m = base(&registros);
    n.estrategia(500, &mut m);
    assert_eq!(m.len(), 3);
    for antes in registros {
        assert_eq!(m[&antes.placa], Situacao { acel_desejada: 0, ..antes });
    }
    let mut vazio = HashMap::new();
    n.estrategia(500, &mut vazio);
    assert!(vazio.is_empty());
}

#[test]
fn semaforo_nunca_pede_aceleracao_fora_dos_limites_do_veiculo() {
    let mut registros = Vec::new();
    let mut placa = 0;
    for via in [Via::ViaH, Via::ViaV] {
        for pos in [-149_000_000, -60_000_000, -12_000_000, -4_000_000, -1, 0, 3_000_000, 9_000_000] {
            for vel in [0, 400, 501, 5_000_000, 19_999_999, 22_222_222, 24_444_445, 55_555_555] {
                placa += 1;
                registros.push(sit(placa, via, pos - placa as i64, vel));
            }
        }
    }
    let mut s = Semaforo::new();
    let mut m = base(&registros);
    let mut ciclo = 0;
    while ciclo < 80 {
        s.estrategia(500, &mut m);
        for r in m.values() {
            assert!(r.acel_min <= r.acel_desejada && r.acel_desejada <= r.acel_max);
        }
        ciclo += 1;
    }
}

#[test]
fn quem_cruza_em_certo_prazo_cruza_em_prazo_maior() {
    for pos in [-150_000_000, -72_166_667, -72_166_666, -20_000_000, -4_000_000, 7_999_999] {
        for vel in [0, 1, 10_000_000, 22_222_222, 55_000_000, 55_555_555] {
            let c = sit(1, Via::ViaH, pos, vel);
            let mut cruzou = false;
            let mut prazo = 0;
            while prazo <= 20_000 {
                let agora = calcula_cruza_a_tempo(&c, prazo);
                assert!(agora || !cruzou);
                cruzou = agora;
                prazo += 250;
            }
        }
    }
}
