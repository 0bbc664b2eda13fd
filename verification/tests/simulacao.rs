use cruzamento::comunicacao::{Comunicacao, MensagemDeVeiculo};
use cruzamento::controlador::{Controle, TipoControlador};
use cruzamento::simulacao::{
    confere_argumentos, laco_simulacao, simula_mundo, tipo_do_controlador, ErroArgumentos, Passo,
    Simulacao,
};
use cruzamento::transito::veiculos::Carro;
use cruzamento::transito::{Colisao, Transito, Via};

fn confere_ordem_nas_vias(simul: &Simulacao) {
    for via in [Via::ViaH, Via::ViaV] {
        let carros = simul.transito.carros_da_via(via);
        let mut i = 1;
        while i < carros.len() {
            assert!(carros[i - 1].pos_atual - carros[i - 1].comprimento as i64 > carros[i].pos_atual);
            i += 1;
        }
        for c in carros {
            assert!(c.vel_atual <= c.vel_max);
            assert!(c.acel_min <= c.acel_atual && c.acel_atual <= c.acel_max);
        }
    }
}

#[test]
fn letra_do_controlador() {
    assert_eq!(tipo_do_controlador('s'), Some(TipoControlador::Semaforo));
    assert_eq!(tipo_do_controlador('n'), Some(TipoControlador::FazNada));
    assert_eq!(tipo_do_controlador('S'), None);
    assert_eq!(tipo_do_controlador('o'), None);
}

#[test]
fn argumentos_aceitos() {
    assert_eq!(confere_argumentos('s', 2_000, 2_000, 200), Ok(()));
    assert_eq!(confere_argumentos('n', 2_000, 3_000, 1_000), Ok(()));
    assert_eq!(confere_argumentos('s', 2_500, u32::MAX, 640), Ok(()));
}

#[test]
fn argumentos_recusados() {
    assert_eq!(confere_argumentos('x', 2_000, 3_000, 500), Err(ErroArgumentos::Controlador));
    assert_eq!(confere_argumentos('s', 1_999, 3_000, 500), Err(ErroArgumentos::TempoCurto));
    assert_eq!(confere_argumentos('s', 3_000, 1_999, 500), Err(ErroArgumentos::TempoCurto));
    assert_eq!(confere_argumentos('s', 3_000, 2_999, 500), Err(ErroArgumentos::TemposTrocados));
    assert_eq!(confere_argumentos('s', 2_000, 3_000, 199), Err(ErroArgumentos::Janela));
    assert_eq!(confere_argumentos('s', 2_000, 3_000, 1_001), Err(ErroArgumentos::Janela));
}

#[test]
fn de_varios_defeitos_nos_argumentos_se_diz_o_primeiro() {
    assert_eq!(confere_argumentos('x', 0, 0, 0), Err(ErroArgumentos::Controlador));
    assert_eq!(confere_argumentos('n', 5_000, 1, 0), Err(ErroArgumentos::TempoCurto));
    assert_eq!(confere_argumentos('n', 5_000, 4_000, 0), Err(ErroArgumentos::TemposTrocados));
}

#[test]
fn mundo_novo_tem_um_carro_em_cada_via() {
    let mut simul = simula_mundo('s', 2_000, 3_000);
    assert_eq!(simul.cont, 's');
    assert_eq!((simul.tec_min, simul.tec_max), (2_000, 3_000));
    assert_eq!(simul.transito.carros_da_via(Via::ViaH), &vec![Carro::new(0, Via::ViaH, 0)]);
    assert_eq!(simul.transito.carros_da_via(Via::ViaV), &vec![Carro::new(1, Via::ViaV, 0)]);
    assert_eq!(simul.transito.carros_criados(), 2);
    assert_eq!(simul.tempo_ateh_proximo_controle, 500);
    assert!(simul.controle.placas_conhecidas().is_empty());
    assert!(simul.controle.semaforo().is_some());
    assert!(simul.comunicacao.receive_por_controlador().is_some());
    assert!(simul.comunicacao.receive_por_controlador().is_some());
    assert!(simul.comunicacao.receive_por_controlador().is_none());
    let simul = simula_mundo('n', 2_000, 3_000);
    assert!(simul.controle.semaforo().is_none());
}

#[test]
fn tempo_ate_a_chegada_e_sorteado_entre_os_limites() {
    let mut menor = i64::MAX;
    let mut maior = i64::MIN;
    let mut vez = 0;
    while vez < 40 {
        let simul = simula_mundo('n', 2_000, 4_000_000);
        assert!(2_000 <= simul.tempo_ateh_proxima_chegada);
        assert!(simul.tempo_ateh_proxima_chegada <= 4_000_000);
        menor = menor.min(simul.tempo_ateh_proxima_chegada);
        maior = maior.max(simul.tempo_ateh_proxima_chegada);
        vez += 1;
    }
    assert!(menor < maior);
    assert!(2_000 < maior);
    assert!(menor < 4_000_000);
    let simul = simula_mundo('n', 2_345, 2_345);
    assert_eq!(simul.tempo_ateh_proxima_chegada, 2_345);
}

#[test]
fn relogios_da_simulacao() {
    let mut simul = simula_mundo('s', 2_000, 2_000);
    assert_eq!(simul.tempo_ateh_proxima_chegada, 2_000);
    let mut passo = 1;
    while passo <= 100 {
        let relato = laco_simulacao(&mut simul);
        assert_eq!(relato.passo, Passo::Segue);
        assert_eq!(simul.tempo_ateh_proximo_controle, 500 - 50 * (passo % 10));
        assert_eq!(relato.chegadas.is_some(), passo % 40 == 0);
        assert_eq!(simul.tempo_ateh_proxima_chegada, 2_000 - 50 * (passo % 40));
        assert_eq!(simul.controle.semaforo().unwrap().restam_verde, 13_000 - 500 * (passo / 10) as u32);
        passo += 1;
    }
    assert_eq!(simul.transito.carros_criados(), 6);
}

#[test]
fn carros_chegam_nas_duas_vias_quando_o_relogio_se_esgota() {
    let mut simul = simula_mundo('n', 2_000, 2_000);
    let mut passo = 1;
    while passo < 40 {
        assert_eq!(laco_simulacao(&mut simul).chegadas, None);
        passo += 1;
    }
    let relato = laco_simulacao(&mut simul);
    let chegadas = relato.chegadas.unwrap();
    assert_eq!(chegadas.via_h, Ok(2));
    assert_eq!(chegadas.via_v, Ok(3));
    assert_eq!(simul.transito.carros_da_via(Via::ViaH).len(), 2);
    assert_eq!(simul.transito.carros_da_via(Via::ViaV)[1], Carro::new(3, Via::ViaV, 0));
}

#[test]
fn controlador_conhece_os_carros_depois_do_primeiro_ciclo() {
    let mut simul = simula_mundo('s', 2_000, 2_000);
    let mut passo = 1;
    while passo < 10 {
        laco_simulacao(&mut simul);
        assert!(simul.controle.placas_conhecidas().is_empty());
        passo += 1;
    }
    laco_simulacao(&mut simul);
    let mut placas = simul.controle.placas_conhecidas();
    placas.sort();
    assert_eq!(placas, vec![0, 1]);
    assert_eq!(simul.controle.situacao_de(0).unwrap().pos_atual, -150_000_000);
    passo = 0;
    while passo < 10 {
        laco_simulacao(&mut simul);
        passo += 1;
    }
    let visto = simul.controle.situacao_de(1).unwrap();
    assert_eq!(visto.pos_atual, -150_000_000 + 11 * 1_111_111);
    assert_eq!(visto.vel_atual, 22_222_222);
}

#[test]
fn sem_controle_os_dois_primeiros_carros_se_encontram_no_cruzamento() {
    let mut simul = simula_mundo('n', 2_000, 3_000);
    let mut passo = 1;
    loop {
        let relato = laco_simulacao(&mut simul);
        if relato.passo != Passo::Segue {
            assert_eq!(relato.passo, Passo::Colisao(Colisao::Cruzamento));
            assert_eq!(relato.chegadas, None);
            break;
        }
        confere_ordem_nas_vias(&simul);
        passo += 1;
        assert!(passo < 1_000);
    }
    assert_eq!(passo, 136);
    assert_eq!(simul.transito.ocorreu_colisao(), Some(Colisao::Cruzamento));
}

#[test]
fn simulacao_termina_quando_as_vias_ficam_vazias() {
    let mut simul = simula_mundo('s', 4_000_000, 4_000_000);
    let mut passo = 1;
    loop {
        let relato = laco_simulacao(&mut simul);
        if relato.passo != Passo::Segue {
            assert_eq!(relato.passo, Passo::Vazio);
            break;
        }
        confere_ordem_nas_vias(&simul);
        passo += 1;
        assert!(passo < 2_000);
    }
    assert!(simul.transito.vazio());
    assert!(passo > 136);
}

#[test]
fn enquanto_a_simulacao_segue_nenhum_carro_encosta_no_da_frente() {
    let mut simul = simula_mundo('s', 2_000, 4_000);
    let mut passo = 0;
    while passo < 6_000 {
        let relato = laco_simulacao(&mut simul);
        if relato.passo != Passo::Segue {
            break;
        }
        confere_ordem_nas_vias(&simul);
        passo += 1;
    }
    assert!(passo > 136);
}

#[test]
fn dois_carros_a_vinte_metros_na_via_aberta_acabam_sem_acelerar() {
    let mut lider = Carro::new(0, Via::ViaH, 0);
    lider.pos_atual = -330_000_000;
    let mut seguidor = Carro::new(1, Via::ViaH, 0);
    seguidor.pos_atual = -350_000_000;
    let mut comunicacao = Comunicacao::new();
    for c in [lider, seguidor] {
        comunicacao.send_por_veiculo(MensagemDeVeiculo::Chegada {
            placa: c.placa,
            via: c.via,
            acel_max: c.acel_max,
            acel_min: c.acel_min,
            vel_max: c.vel_max,
            comprimento: c.comprimento,
        });
    }
    let mut simul = Simulacao {
        cont: 's',
        tec_min: 1_000_000,
        tec_max: 1_000_000,
        transito: Transito::com_carros(vec![lider, seguidor], vec![], 2),
        comunicacao,
        controle: Controle::new(TipoControlador::Semaforo),
        tempo_ateh_proxima_chegada: 1_000_000,
        tempo_ateh_proximo_controle: 500,
    };
    let mut freou = false;
    let mut passo = 0;
    while passo < 240 {
        let relato = laco_simulacao(&mut simul);
        assert_eq!(relato.passo, Passo::Segue);
        confere_ordem_nas_vias(&simul);
        let carros = simul.transito.carros_da_via(Via::ViaH);
        assert_eq!(carros.len(), 2);
        if carros[1].acel_atual == -5_000_000 {
            freou = true;
        }
        if passo >= 200 {
            let (lider, seguidor) = (carros[0], carros[1]);
            let folga = lider.pos_atual - lider.comprimento as i64 - seguidor.pos_atual;
            assert_eq!(seguidor.acel_atual, 0, "passo {}: {:?}", passo, carros);
            assert!(10 * seguidor.vel_atual as u64 >= 9 * 22_222_222);
            assert!(10 * seguidor.vel_atual as u64 <= 11 * 22_222_222);
            assert!(folga * 1_000 >= 2_000 * seguidor.vel_atual as i64);
        }
        passo += 1;
    }
    assert!(freou);
    assert!(simul.controle.semaforo().unwrap().restam_verde > 0);
}
