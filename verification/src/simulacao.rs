//! The simulation as a whole: the traffic, the controller and the messages
//! between them, advanced step by step.
//!
//! The one who drives the simulation calls [`laco_simulacao`] once per tick of
//! [`TICKMS`] milliseconds and stops when it tells of a collision or of empty
//! lanes. Vehicles move on every tick; the controller runs one cycle every
//! [`TEMPO_ENTRE_CONTROLES`] milliseconds; a vehicle arrives at the entry of
//! each lane at times drawn at random between two bounds.
use crate::comunicacao::{Caixas, Comunicacao};
use crate::controlador::{Controle, TipoControlador, TEMPO_ENTRE_CONTROLES};
use crate::transito::veiculos::VELOCIDADE_CRUZEIRO;
use crate::transito::{
    aviso_de_chegada, carro_que_chega, ninguem_recuou, Colisao, ErroChegada, Transito, Via,
};
use rand::Rng;
use vstd::prelude::*;

verus! {

/// Length of a simulation step, in milliseconds.
pub const TICKMS: u32 = 50;

/// Smallest time between two arrivals that is accepted, in milliseconds.
pub const TEC_MINIMO: u32 = 2_000;

/// Smallest side of the window that is accepted, in pixels.
pub const JANELA_MINIMA: u32 = 200;

/// Largest side of the window that is accepted, in pixels.
pub const JANELA_MAXIMA: u32 = 1_000;

/// What is wrong with the arguments of a simulation.
#[derive(Clone, Copy, Debug, PartialEq, Eq)]
pub enum ErroArgumentos {
    /// The controller is neither `s` nor `n`.
    Controlador,
    /// A time between arrivals is under [`TEC_MINIMO`].
    TempoCurto,
    /// The smallest time between arrivals is over the largest.
    TemposTrocados,
    /// The side of the window is not between [`JANELA_MINIMA`] and
    /// [`JANELA_MAXIMA`].
    Janela,
}

/// The strategy that the letter `cont` stands for: `s` for the traffic light,
/// `n` for the one that does nothing.
pub open spec fn tipo_de(cont: char) -> Option<TipoControlador> {
    if cont == 's' {
        Some(TipoControlador::Semaforo)
    } else if cont == 'n' {
        Some(TipoControlador::FazNada)
    } else {
        None
    }
}

/// Computes [`tipo_de`].
pub fn tipo_do_controlador(cont: char) -> (r: Option<TipoControlador>)
    ensures
        r == tipo_de(cont),
{
    if cont == 's' {
        Some(TipoControlador::Semaforo)
    } else if cont == 'n' {
        Some(TipoControlador::FazNada)
    } else {
        None
    }
}

/// Checks the arguments of a simulation: the letter of the controller, the
/// bounds of the time between arrivals in milliseconds, and the side of the
/// window in pixels. Of several faults the first in the order of
/// [`ErroArgumentos`] is told.
pub fn confere_argumentos(cont: char, tec_min: u32, tec_max: u32, tam_janela: u32) -> (r: Result<
    (),
    ErroArgumentos,
>)
    ensures
        r == (if tipo_de(cont) is None {
            Err::<(), ErroArgumentos>(ErroArgumentos::Controlador)
        } else if tec_min < TEC_MINIMO || tec_max < TEC_MINIMO {
            Err(ErroArgumentos::TempoCurto)
        } else if tec_min > tec_max {
            Err(ErroArgumentos::TemposTrocados)
        } else if tam_janela < JANELA_MINIMA || tam_janela > JANELA_MAXIMA {
            Err(ErroArgumentos::Janela)
        } else {
            Ok(())
        }),
{
    if tipo_do_controlador(cont).is_none() {
        return Err(ErroArgumentos::Controlador);
    }
    if tec_min < TEC_MINIMO || tec_max < TEC_MINIMO {
        return Err(ErroArgumentos::TempoCurto);
    }
    if tec_min > tec_max {
        return Err(ErroArgumentos::TemposTrocados);
    }
    if tam_janela < JANELA_MINIMA || tam_janela > JANELA_MAXIMA {
        return Err(ErroArgumentos::Janela);
    }
    Ok(())
}

/// How a step of the simulation ended.
#[derive(Clone, Copy, Debug, PartialEq, Eq)]
pub enum Passo {
    /// Two vehicles have met: the simulation is over.
    Colisao(Colisao),
    /// No vehicle is left: the simulation is over.
    Vazio,
    /// The simulation goes on.
    Segue,
}

/// How the arrivals of one step ended, lane by lane.
#[derive(Clone, Copy, Debug, PartialEq, Eq)]
pub struct Chegadas {
    /// The plate of the vehicle that entered lane H, or why none did.
    pub via_h: Result<u64, ErroChegada>,
    /// The plate of the vehicle that entered lane V, or why none did.
    pub via_v: Result<u64, ErroChegada>,
}

/// What a step of the simulation tells its driver.
#[derive(Clone, Copy, Debug, PartialEq, Eq)]
pub struct Relato {
    /// How the step ended.
    pub passo: Passo,
    /// The arrivals of this step, where it was time for them.
    pub chegadas: Option<Chegadas>,
}

/// A simulation.
pub struct Simulacao {
    /// Letter of the controller in use.
    pub cont: char,
    /// Smallest time between two arrivals, in milliseconds.
    pub tec_min: u32,
    /// Largest time between two arrivals, in milliseconds.
    pub tec_max: u32,
    /// The vehicles.
    pub transito: Transito,
    /// The messages in transit.
    pub comunicacao: Comunicacao,
    /// The controller.
    pub controle: Controle,
    /// Time left until vehicles arrive, in milliseconds.
    pub tempo_ateh_proxima_chegada: i64,
    /// Time left until the controller runs, in milliseconds.
    pub tempo_ateh_proximo_controle: i64,
}

impl Simulacao {
    /// The parts of the simulation are in order, the bounds of the time
    /// between arrivals are, and both clocks have time left.
    pub open spec fn inv(&self) -> bool {
        &&& self.transito.inv()
        &&& self.controle.inv()
        &&& TICKMS <= self.tec_min <= self.tec_max
        &&& 0 < self.tempo_ateh_proxima_chegada <= u32::MAX
        &&& 0 < self.tempo_ateh_proximo_controle <= TEMPO_ENTRE_CONTROLES
    }

    /// It is time for the controller to run in the step that begins now.
    pub open spec fn hora_do_controle(&self) -> bool {
        self.tempo_ateh_proximo_controle <= TICKMS
    }

    /// It is time for vehicles to arrive in the step that begins now.
    pub open spec fn hora_da_chegada(&self) -> bool {
        self.tempo_ateh_proxima_chegada <= TICKMS
    }

    /// `depois` is this simulation after the vehicles have had their tick
    /// and the controller, if it was time, its cycle; `passo` tells what the
    /// lanes then show. Arrivals are left as they were.
    pub open spec fn avancou(&self, depois: &Simulacao, passo: Passo) -> bool {
        let caixas = self.transito.caixas_depois_do_tick(TICKMS, self.comunicacao@);
        &&& depois.cont == self.cont
        &&& depois.tec_min == self.tec_min
        &&& depois.tec_max == self.tec_max
        &&& depois.tempo_ateh_proxima_chegada == self.tempo_ateh_proxima_chegada
        &&& self.transito.andou(&depois.transito, TICKMS, self.comunicacao@)
        &&& if self.hora_do_controle() {
            &&& self.controle.controlou(&depois.controle, TEMPO_ENTRE_CONTROLES, caixas)
            &&& depois.comunicacao@ == Controle::caixas_depois_do_ciclo(&depois.controle, caixas)
            &&& depois.tempo_ateh_proximo_controle == self.tempo_ateh_proximo_controle - TICKMS
                + TEMPO_ENTRE_CONTROLES
        } else {
            &&& depois.controle.base() == self.controle.base()
            &&& depois.controle.estrategia_em_uso() == self.controle.estrategia_em_uso()
            &&& depois.comunicacao@ == caixas
            &&& depois.tempo_ateh_proximo_controle == self.tempo_ateh_proximo_controle - TICKMS
        }
        &&& passo == match depois.transito.colisao() {
            Some(c) => Passo::Colisao(c),
            None => if depois.transito.carros(Via::ViaH).len() == 0 && depois.transito.carros(
                Via::ViaV,
            ).len() == 0 {
                Passo::Vazio
            } else {
                Passo::Segue
            },
        }
    }

    /// `depois` is this simulation after a vehicle has arrived at each lane,
    /// first at H and then at V, with the outcomes `chegadas`, and after
    /// `sorteio` milliseconds have been put on the clock of the arrivals,
    /// from which the step has been taken.
    pub open spec fn chegaram(&self, depois: &Simulacao, sorteio: u32, chegadas: Chegadas) -> bool {
        &&& depois.cont == self.cont
        &&& depois.tec_min == self.tec_min
        &&& depois.tec_max == self.tec_max
        &&& depois.tempo_ateh_proximo_controle == self.tempo_ateh_proximo_controle
        &&& depois.controle.base() == self.controle.base()
        &&& depois.controle.estrategia_em_uso() == self.controle.estrategia_em_uso()
        &&& depois.tempo_ateh_proxima_chegada == self.tempo_ateh_proxima_chegada - TICKMS + sorteio
        &&& exists|meio: Transito, caixas: Caixas|
            {
                &&& self.transito.chegou(&meio, Via::ViaH, chegadas.via_h, self.comunicacao@, caixas)
                &&& meio.chegou(
                    &depois.transito,
                    Via::ViaV,
                    chegadas.via_v,
                    caixas,
                    depois.comunicacao@,
                )
            }
    }

    /// The vehicles move, the controller runs if it is time, and the lanes are
    /// looked at: the first part of a step.
    ///
    /// No vehicle ends behind the place it had or with a velocity over its
    /// limit. Where the step goes on, no vehicle has been reached by the one
    /// behind it.
    pub fn avanca_mundo(&mut self) -> (passo: Passo)
        requires
            old(self).inv(),
        ensures
            old(self).avancou(final(self), passo),
            final(self).transito.inv(),
            final(self).controle.inv(),
            0 < final(self).tempo_ateh_proximo_controle <= TEMPO_ENTRE_CONTROLES,
            ninguem_recuou(old(self).transito.carros(Via::ViaH), final(self).transito.carros(Via::ViaH)),
            ninguem_recuou(old(self).transito.carros(Via::ViaV), final(self).transito.carros(Via::ViaV)),
            passo is Segue ==> final(self).transito.sem_batida(),
    {
        self.transito.tick(TICKMS, &mut self.comunicacao);
        self.tempo_ateh_proximo_controle = self.tempo_ateh_proximo_controle - TICKMS as i64;
        if self.tempo_ateh_proximo_controle <= 0 {
            self.tempo_ateh_proximo_controle = self.tempo_ateh_proximo_controle
                + TEMPO_ENTRE_CONTROLES as i64;
            self.controle.acao_controle(TEMPO_ENTRE_CONTROLES, &mut self.comunicacao);
        }
        if let Some(c) = self.transito.ocorreu_colisao() {
            return Passo::Colisao(c);
        }
        if self.transito.vazio() {
            return Passo::Vazio;
        }
        Passo::Segue
    }

    /// A vehicle arrives at each lane, and `sorteio` milliseconds are put on
    /// the clock of the arrivals: the second part of a step in which it is
    /// time for them.
    ///
    /// Lanes in which no vehicle had been reached by the one behind it stay
    /// so.
    pub fn chegam_carros(&mut self, sorteio: u32) -> (chegadas: Chegadas)
        requires
            old(self).transito.inv(),
            old(self).hora_da_chegada(),
            0 < old(self).tempo_ateh_proxima_chegada,
        ensures
            old(self).chegaram(final(self), sorteio, chegadas),
            final(self).transito.inv(),
            old(self).transito.sem_batida() ==> final(self).transito.sem_batida(),
    {
        let ghost caixas0 = self.comunicacao@;
        let ghost t0 = self.transito;
        let via_h = self.transito.chega_carro(Via::ViaH, &mut self.comunicacao);
        let ghost meio = self.transito;
        let ghost caixas1 = self.comunicacao@;
        let via_v = self.transito.chega_carro(Via::ViaV, &mut self.comunicacao);
        self.tempo_ateh_proxima_chegada = self.tempo_ateh_proxima_chegada - TICKMS as i64
            + sorteio as i64;
        let chegadas = Chegadas { via_h, via_v };
        proof {
            assert(t0.chegou(&meio, Via::ViaH, chegadas.via_h, caixas0, caixas1));
            assert(meio.chegou(&self.transito, Via::ViaV, chegadas.via_v, caixas1, self.comunicacao@));
        }
        chegadas
    }
}

/// Draws the time until the next arrival, in milliseconds.
///
/// This calls `gen_range` of the crate `rand` on the generator that
/// `thread_rng` gives, with the range from `min` to `max`, both included.
/// What is claimed of it, and not proved: the number it gives is in that
/// range. It panics on an empty range, which `requires` excludes.
#[verifier::external_body]
fn tempo_entre_chegadas(min: u32, max: u32) -> (r: u32)
    requires
        min <= max,
    ensures
        min <= r <= max,
{
    rand::thread_rng().gen_range(min..=max)
}

/// Sets up a simulation: empty mailboxes, a first vehicle at the entry of
/// each lane, the controller that `tipo` asks for, and the first time until
/// the next arrivals, drawn between `tec_min` and `tec_max` milliseconds.
pub fn simula_mundo(cont: char, tec_min: u32, tec_max: u32) -> (simul: Simulacao)
    requires
        tipo_de(cont) is Some,
        TEC_MINIMO <= tec_min <= tec_max,
    ensures
        simul.inv(),
        simul.cont == cont,
        simul.tec_min == tec_min,
        simul.tec_max == tec_max,
        tec_min <= simul.tempo_ateh_proxima_chegada <= tec_max,
        simul.tempo_ateh_proximo_controle == TEMPO_ENTRE_CONTROLES,
        simul.controle.base() == Map::<u64, crate::controlador::Situacao>::empty(),
        simul.controle.estrategia_em_uso() == crate::controlador::estrategia_inicial(
            tipo_de(cont).unwrap(),
        ),
        simul.transito.criados() == 2,
        simul.transito.carros(Via::ViaH) == seq![
            carro_que_chega(0, Via::ViaH, VELOCIDADE_CRUZEIRO),
        ],
        simul.transito.carros(Via::ViaV) == seq![
            carro_que_chega(1, Via::ViaV, VELOCIDADE_CRUZEIRO),
        ],
        simul.comunicacao@ == Caixas::vazias().com_aviso(
            aviso_de_chegada(carro_que_chega(0, Via::ViaH, VELOCIDADE_CRUZEIRO)),
        ).com_aviso(aviso_de_chegada(carro_que_chega(1, Via::ViaV, VELOCIDADE_CRUZEIRO))),
{
    let mut comunicacao = Comunicacao::new();
    let mut transito = Transito::new();
    let _ = transito.chega_carro(Via::ViaH, &mut comunicacao);
    let _ = transito.chega_carro(Via::ViaV, &mut comunicacao);
    let tipo = match tipo_do_controlador(cont) {
        Some(tipo) => tipo,
        None => TipoControlador::FazNada,
    };
    let controle = Controle::new(tipo);
    let sorteio = tempo_entre_chegadas(tec_min, tec_max);
    let simul = Simulacao {
        cont,
        tec_min,
        tec_max,
        transito,
        comunicacao,
        controle,
        tempo_ateh_proxima_chegada: sorteio as i64,
        tempo_ateh_proximo_controle: TEMPO_ENTRE_CONTROLES as i64,
    };
    proof {
        assert(simul.transito.carros(Via::ViaH) =~= seq![
            carro_que_chega(0, Via::ViaH, VELOCIDADE_CRUZEIRO),
        ]);
        assert(simul.transito.carros(Via::ViaV) =~= seq![
            carro_que_chega(1, Via::ViaV, VELOCIDADE_CRUZEIRO),
        ]);
    }
    simul
}

/// One step of the simulation, [`TICKMS`] milliseconds long.
///
/// The vehicles move and the controller runs if it is time, as
/// [`Simulacao::avanca_mundo`] says. If that shows a collision or empty lanes
/// the step ends there. Otherwise the clock of the arrivals goes on, and if
/// it has run out a vehicle arrives at each lane and a new time, drawn
/// between the two bounds, is put on the clock, as
/// [`Simulacao::chegam_carros`] says.
///
/// Where the step goes on, no vehicle has been reached by the one behind it.
pub fn laco_simulacao(simul: &mut Simulacao) -> (relato: Relato)
    requires
        old(simul).inv(),
    ensures
        final(simul).inv(),
        relato.passo is Segue ==> final(simul).transito.sem_batida(),
        exists|meio: Simulacao| old(simul).passou(&meio, final(simul), relato),
{
    let passo = simul.avanca_mundo();
    let ghost meio = *simul;
    match passo {
        Passo::Segue => {},
        _ => {
            let relato = Relato { passo, chegadas: None };
            proof {
                assert(old(simul).passou(&meio, simul, relato));
            }
            return relato;
        },
    }
    if simul.tempo_ateh_proxima_chegada <= TICKMS as i64 {
        let sorteio = tempo_entre_chegadas(simul.tec_min, simul.tec_max);
        let chegadas = simul.chegam_carros(sorteio);
        let relato = Relato { passo, chegadas: Some(chegadas) };
        proof {
            assert(meio.chegaram(simul, sorteio, relato.chegadas.unwrap()));
            assert(old(simul).passou(&meio, simul, relato));
        }
        relato
    } else {
        simul.tempo_ateh_proxima_chegada = simul.tempo_ateh_proxima_chegada - TICKMS as i64;
        let relato = Relato { passo, chegadas: None };
        proof {
            assert(simul.igual(
                &Simulacao {
                    tempo_ateh_proxima_chegada: (meio.tempo_ateh_proxima_chegada - TICKMS) as i64,
                    ..meio
                },
            ));
            assert(old(simul).passou(&meio, simul, relato));
        }
        relato
    }
}

impl Simulacao {
    /// `depois` is this simulation one step later, `relato` what the step
    /// tells, and `meio` the simulation between the two parts of the step.
    ///
    /// A step that ends the simulation stops at `meio`. One that goes on
    /// takes its length from the clock of the arrivals, or, where that clock
    /// has run out, lets vehicles arrive and puts a time between the two
    /// bounds on it.
    pub open spec fn passou(&self, meio: &Simulacao, depois: &Simulacao, relato: Relato) -> bool {
        &&& self.avancou(meio, relato.passo)
        &&& if !(relato.passo is Segue) {
            &&& relato.chegadas is None
            &&& depois.igual(meio)
        } else if !meio.hora_da_chegada() {
            &&& relato.chegadas is None
            &&& depois.igual(
                &Simulacao {
                    tempo_ateh_proxima_chegada: (meio.tempo_ateh_proxima_chegada - TICKMS) as i64,
                    ..*meio
                },
            )
        } else {
            &&& relato.chegadas is Some
            &&& exists|sorteio: u32|
                self.tec_min <= sorteio <= self.tec_max && #[trigger] meio.chegaram(
                    depois,
                    sorteio,
                    relato.chegadas.unwrap(),
                )
        }
    }

    /// The two simulations hold the same vehicles, messages, records,
    /// strategy, bounds and clocks.
    pub open spec fn igual(&self, outra: &Simulacao) -> bool {
        &&& self.cont == outra.cont
        &&& self.tec_min == outra.tec_min
        &&& self.tec_max == outra.tec_max
        &&& self.tempo_ateh_proxima_chegada == outra.tempo_ateh_proxima_chegada
        &&& self.tempo_ateh_proximo_controle == outra.tempo_ateh_proximo_controle
        &&& self.transito.carros(Via::ViaH) == outra.transito.carros(Via::ViaH)
        &&& self.transito.carros(Via::ViaV) == outra.transito.carros(Via::ViaV)
        &&& self.transito.criados() == outra.transito.criados()
        &&& self.comunicacao@ == outra.comunicacao@
        &&& self.controle.base() == outra.controle.base()
        &&& self.controle.estrategia_em_uso() == outra.controle.estrategia_em_uso()
    }
}

} // verus!
