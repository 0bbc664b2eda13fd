//! The controller: its picture of every vehicle and the strategies that
//! choose an acceleration for each.
use crate::comunicacao::{Caixas, Comunicacao, MensagemDeVeiculo, MensagemDoControlador};
use crate::controlador::faz_nada::FazNada;
use crate::controlador::fila::{chaves_coerentes, placas};
use crate::controlador::semaforo::Semaforo;
use crate::transito::{Via, VIAH_PERIMETRO, VIAV_PERIMETRO};
use std::collections::HashMap;
use vstd::prelude::*;

pub mod faz_nada;
pub mod fila;
pub mod leis;
pub mod semaforo;

verus! {

/// Time between two control cycles, in milliseconds.
pub const TEMPO_ENTRE_CONTROLES: u32 = 500;

/// Number of control cycles a vehicle stays on record without being heard of.
pub const VIDA_INICIAL: u32 = 2;

/// What the controller knows of one vehicle.
///
/// Everything but `acel_desejada` and `estou_vivo` is a copy of what the
/// vehicle last reported, and may lag behind the vehicle's true state.
#[derive(Clone, Copy, Debug, PartialEq, Eq)]
pub struct Situacao {
    /// The vehicle's plate.
    pub placa: u64,
    /// The lane it travels on.
    pub via: Via,
    /// Largest acceleration it can apply.
    pub acel_max: i32,
    /// Smallest acceleration it can apply: its hardest braking.
    pub acel_min: i32,
    /// Largest velocity it can reach.
    pub vel_max: u32,
    /// Its length.
    pub comprimento: u32,
    /// Position of its front bumper.
    pub pos_atual: i64,
    /// Its velocity.
    pub vel_atual: u32,
    /// The acceleration it is applying.
    pub acel_atual: i32,
    /// The acceleration the strategy wants it to apply.
    pub acel_desejada: i32,
    /// Control cycles left before the record is dropped.
    pub estou_vivo: u32,
}

impl Situacao {
    /// `depois` is this record with another wish for the acceleration, and
    /// nothing else changed.
    pub open spec fn so_muda_desejada(self, depois: Situacao) -> bool {
        depois == (Situacao { acel_desejada: depois.acel_desejada, ..self })
    }
}

/// A strategy: the rule by which the controller chooses, cycle after cycle,
/// the acceleration that it wants from each vehicle.
pub trait Controlador: Sized {
    /// What holds of a strategy's state between two cycles.
    spec fn inv(&self) -> bool;

    /// The state of this strategy after a cycle that comes `tempo_decorrido`
    /// milliseconds after the last one.
    spec fn avanca(&self, tempo_decorrido: u32) -> Self;

    /// The acceleration that this strategy, in the state it has reached in the
    /// current cycle, wants from the vehicle with plate `placa`, given the
    /// records `m` of all vehicles.
    spec fn escolhe(&self, m: Map<u64, Situacao>, placa: u64) -> int;

    /// A strategy in its initial state.
    fn new() -> (c: Self)
        ensures
            c.inv(),
    ;

    /// Runs one cycle: advances the strategy's own state by `tempo_decorrido`
    /// milliseconds, then writes into every record the acceleration wanted
    /// from its vehicle. Nothing else in the records changes, and none is
    /// added or dropped.
    fn estrategia(&mut self, tempo_decorrido: u32, situacao: &mut HashMap<u64, Situacao>)
        requires
            old(self).inv(),
            chaves_coerentes(old(situacao)@),
        ensures
            final(self).inv(),
            *final(self) == old(self).avanca(tempo_decorrido),
            final(situacao)@.dom() == old(situacao)@.dom(),
            forall|k: u64| #[trigger]
                old(situacao)@.contains_key(k) ==> old(situacao)@[k].so_muda_desejada(
                    final(situacao)@[k],
                ) && final(situacao)@[k].acel_desejada == final(self).escolhe(old(situacao)@, k),
    ;
}

/// Which strategy a controller is to run.
#[derive(Clone, Copy, Debug, PartialEq, Eq)]
pub enum TipoControlador {
    Semaforo,
    FazNada,
}

/// The strategy that a controller runs, with its state.
pub enum MeuControlador {
    Semaforo(Semaforo),
    FazNada(FazNada),
}

impl MeuControlador {
    /// The invariant of the strategy held.
    pub open spec fn inv(&self) -> bool {
        match self {
            MeuControlador::Semaforo(ss) => ss.inv(),
            MeuControlador::FazNada(nn) => nn.inv(),
        }
    }

    /// The strategy held, after a cycle that comes `tempo_decorrido`
    /// milliseconds after the last one.
    pub open spec fn avanca(&self, tempo_decorrido: u32) -> MeuControlador {
        match self {
            MeuControlador::Semaforo(ss) => MeuControlador::Semaforo(ss.avanca(tempo_decorrido)),
            MeuControlador::FazNada(nn) => MeuControlador::FazNada(nn.avanca(tempo_decorrido)),
        }
    }

    /// The acceleration that the strategy held wants from the vehicle with
    /// plate `placa`.
    pub open spec fn escolhe(&self, m: Map<u64, Situacao>, placa: u64) -> int {
        match self {
            MeuControlador::Semaforo(ss) => ss.escolhe(m, placa),
            MeuControlador::FazNada(nn) => nn.escolhe(m, placa),
        }
    }
}

/// The strategy `tipo` in its initial state.
pub open spec fn estrategia_inicial(tipo: TipoControlador) -> MeuControlador {
    match tipo {
        TipoControlador::Semaforo => MeuControlador::Semaforo(Semaforo::inicial()),
        TipoControlador::FazNada => MeuControlador::FazNada(FazNada {  }),
    }
}

/// The record that the controller opens when a vehicle announces itself: at
/// the far end of its lane's perimeter and at rest, until its first report
/// says otherwise.
pub open spec fn registro_de_chegada(
    placa: u64,
    via: Via,
    acel_max: i32,
    acel_min: i32,
    vel_max: u32,
    comprimento: u32,
) -> Situacao {
    Situacao {
        placa,
        via,
        acel_max,
        acel_min,
        vel_max,
        comprimento,
        pos_atual: (-via.perimetro()) as i64,
        vel_atual: 0,
        acel_atual: 0,
        acel_desejada: 0,
        estou_vivo: VIDA_INICIAL,
    }
}

/// The records `m` after the controller has read `msg`.
///
/// An arrival opens a record under the vehicle's plate, in place of any
/// record that was there. A report brings the record of its vehicle up to
/// date and renews its life; a report from a vehicle without a record is
/// ignored.
pub open spec fn recebe(m: Map<u64, Situacao>, msg: MensagemDeVeiculo) -> Map<u64, Situacao> {
    match msg {
        MensagemDeVeiculo::Chegada { placa, via, acel_max, acel_min, vel_max, comprimento } => m.insert(
            placa,
            registro_de_chegada(placa, via, acel_max, acel_min, vel_max, comprimento),
        ),
        MensagemDeVeiculo::SituacaoAtual { placa, pos_atual, vel_atual, acel_atual } => if m.contains_key(
            placa,
        ) {
            m.insert(
                placa,
                Situacao { pos_atual, vel_atual, acel_atual, estou_vivo: VIDA_INICIAL, ..m[placa] },
            )
        } else {
            m
        },
    }
}

/// The records `m` after the controller has read all of `msgs`, oldest first.
pub open spec fn recebe_todas(m: Map<u64, Situacao>, msgs: Seq<MensagemDeVeiculo>) -> Map<
    u64,
    Situacao,
>
    decreases msgs.len(),
{
    if msgs.len() == 0 {
        m
    } else {
        recebe(recebe_todas(m, msgs.drop_last()), msgs.last())
    }
}

/// The records `m` one control cycle older: each has one cycle less to live,
/// and those that had only one left are gone.
pub open spec fn envelhece(m: Map<u64, Situacao>) -> Map<u64, Situacao> {
    Map::new(
        |k: u64| m.contains_key(k) && m[k].estou_vivo > 1,
        |k: u64| Situacao { estou_vivo: (m[k].estou_vivo - 1) as u32, ..m[k] },
    )
}

/// The records `m` with the acceleration that `c` wants from each vehicle
/// written into its record.
pub open spec fn comanda(m: Map<u64, Situacao>, c: MeuControlador) -> Map<u64, Situacao> {
    Map::new(
        |k: u64| m.contains_key(k),
        |k: u64| Situacao { acel_desejada: c.escolhe(m, k) as i32, ..m[k] },
    )
}

/// The queues `filas` after the controller has sent its orders to every
/// vehicle on record in `m`: first the acceleration wanted from it, then the
/// request for a report.
pub open spec fn com_ordens(
    filas: Map<u64, Seq<MensagemDoControlador>>,
    m: Map<u64, Situacao>,
) -> Map<u64, Seq<MensagemDoControlador>> {
    Map::new(
        |k: u64| true,
        |k: u64|
            if m.contains_key(k) {
                filas[k].push(MensagemDoControlador::SetAcel { placa: k, acel: m[k].acel_desejada }).push(
                    MensagemDoControlador::PedeSituacao { placa: k },
                )
            } else {
                filas[k]
            },
    )
}

/// Every record has at least one cycle to live.
pub open spec fn todos_vivos(m: Map<u64, Situacao>) -> bool {
    forall|k: u64| m.contains_key(k) ==> (#[trigger] m[k]).estou_vivo >= 1
}

/// What the controller needs to do its work: a record of every vehicle it
/// has heard of, and a strategy.
pub struct Controle {
    situacao: HashMap<u64, Situacao>,
    controlador: MeuControlador,
}

impl Controle {
    /// The records, by plate.
    pub closed spec fn base(&self) -> Map<u64, Situacao> {
        self.situacao@
    }

    /// The strategy, with its state.
    pub closed spec fn estrategia_em_uso(&self) -> MeuControlador {
        self.controlador
    }

    /// Every record is kept under its own plate and has at least one cycle to
    /// live, and the strategy's own invariant holds.
    pub open spec fn inv(&self) -> bool {
        &&& chaves_coerentes(self.base())
        &&& todos_vivos(self.base())
        &&& self.estrategia_em_uso().inv()
    }

    /// `depois` is this controller after a control cycle, `tempo_decorrido`
    /// milliseconds after the last one, that found the mailboxes as `caixas`.
    pub open spec fn controlou(&self, depois: &Controle, tempo_decorrido: u32, caixas: Caixas) -> bool {
        &&& depois.estrategia_em_uso() == self.estrategia_em_uso().avanca(tempo_decorrido)
        &&& depois.base() == comanda(
            envelhece(recebe_todas(self.base(), caixas.de_veiculos)),
            depois.estrategia_em_uso(),
        )
    }

    /// The mailboxes after the cycle that made `depois` of this controller.
    pub open spec fn caixas_depois_do_ciclo(depois: &Controle, caixas: Caixas) -> Caixas {
        Caixas {
            de_veiculos: Seq::empty(),
            do_controlador: com_ordens(caixas.do_controlador, depois.base()),
        }
    }

    /// A controller without records that runs the strategy `tipo` from its
    /// initial state.
    pub fn new(tipo: TipoControlador) -> (c: Self)
        ensures
            c.inv(),
            c.base() == Map::<u64, Situacao>::empty(),
            c.estrategia_em_uso() == estrategia_inicial(tipo),
    {
        Self {
            situacao: HashMap::new(),
            controlador: match tipo {
                TipoControlador::Semaforo => MeuControlador::Semaforo(Semaforo::new()),
                TipoControlador::FazNada => MeuControlador::FazNada(FazNada::new()),
            },
        }
    }

    /// The record of the vehicle with plate `placa`, if there is one.
    pub fn situacao_de(&self, placa: u64) -> (r: Option<Situacao>)
        ensures
            r == (if self.base().contains_key(placa) {
                Some(self.base()[placa])
            } else {
                None
            }),
    {
        broadcast use vstd::std_specs::hash::group_hash_axioms;

        match self.situacao.get(&placa) {
            Some(s) => Some(*s),
            None => None,
        }
    }

    /// The plates of the vehicles on record, each once, in no particular
    /// order.
    pub fn placas_conhecidas(&self) -> (r: Vec<u64>)
        ensures
            r@.no_duplicates(),
            forall|k: u64| r@.contains(k) <==> self.base().contains_key(k),
    {
        placas(&self.situacao)
    }

    /// The traffic light, where that is the strategy in use.
    pub fn semaforo(&self) -> (r: Option<Semaforo>)
        ensures
            r == (match self.estrategia_em_uso() {
                MeuControlador::Semaforo(ss) => Some(ss),
                MeuControlador::FazNada(_) => None,
            }),
    {
        match &self.controlador {
            MeuControlador::Semaforo(ss) => Some(*ss),
            MeuControlador::FazNada(_) => None,
        }
    }

    /// Reads every message that vehicles have sent, oldest first.
    fn recebe_mensagens(&mut self, comunicacao: &mut Comunicacao)
        requires
            old(self).inv(),
        ensures
            final(self).inv(),
            final(self).estrategia_em_uso() == old(self).estrategia_em_uso(),
            final(self).base() == recebe_todas(old(self).base(), old(comunicacao)@.de_veiculos),
            final(comunicacao)@ == (Caixas { de_veiculos: Seq::empty(), ..old(comunicacao)@ }),
    {
        broadcast use vstd::std_specs::hash::group_hash_axioms;

        let ghost msgs = comunicacao@.de_veiculos;
        let ghost mut n: int = 0;
        assert(msgs.skip(0) =~= msgs);
        loop
            invariant
                0 <= n <= msgs.len(),
                self.inv(),
                self.controlador == old(self).controlador,
                self.situacao@ == recebe_todas(old(self).situacao@, msgs.take(n)),
                comunicacao@ == (Caixas { de_veiculos: msgs.skip(n), ..old(comunicacao)@ }),
                msgs == old(comunicacao)@.de_veiculos,
            ensures
                self.inv(),
                self.controlador == old(self).controlador,
                self.situacao@ == recebe_todas(old(self).situacao@, msgs),
                comunicacao@ == (Caixas { de_veiculos: Seq::empty(), ..old(comunicacao)@ }),
            decreases msgs.len() - n,
        {
            let recebida = comunicacao.receive_por_controlador();
            match recebida {
                None => {
                    proof {
                        assert(msgs.take(n) =~= msgs);
                        assert(msgs.skip(n) =~= Seq::empty());
                    }
                    break ;
                },
                Some(msg) => {
                    proof {
                        assert(msgs.take(n + 1).drop_last() =~= msgs.take(n));
                        assert(msgs.skip(n).drop_first() =~= msgs.skip(n + 1));
                    }
                    match msg {
                        MensagemDeVeiculo::Chegada {
                            placa,
                            via,
                            acel_max,
                            acel_min,
                            vel_max,
                            comprimento,
                        } => {
                            let novo = Situacao {
                                placa,
                                via,
                                acel_max,
                                acel_min,
                                vel_max,
                                comprimento,
                                pos_atual: match via {
                                    Via::ViaH => -VIAH_PERIMETRO,
                                    Via::ViaV => -VIAV_PERIMETRO,
                                },
                                vel_atual: 0,
                                acel_atual: 0,
                                acel_desejada: 0,
                                estou_vivo: VIDA_INICIAL,
                            };
                            self.situacao.insert(placa, novo);
                        },
                        MensagemDeVeiculo::SituacaoAtual { placa, pos_atual, vel_atual, acel_atual } => {
                            let velho = self.situacao.get(&placa);
                            match velho {
                                None => (),
                                Some(veiculo) => {
                                    let mut novo: Situacao = *veiculo;
                                    novo.pos_atual = pos_atual;
                                    novo.vel_atual = vel_atual;
                                    novo.acel_atual = acel_atual;
                                    novo.estou_vivo = VIDA_INICIAL;
                                    self.situacao.insert(placa, novo);
                                },
                            }
                        },
                    }
                    proof {
                        n = n + 1;
                    }
                },
            }
        }
    }

    /// Takes one cycle of life from every record and drops those that have
    /// none left.
    fn envelhece_registros(&mut self)
        requires
            old(self).inv(),
        ensures
            final(self).inv(),
            final(self).estrategia_em_uso() == old(self).estrategia_em_uso(),
            final(self).base() == envelhece(old(self).base()),
    {
        broadcast use vstd::std_specs::hash::group_hash_axioms;

        let chaves = placas(&self.situacao);
        let ghost m = self.situacao@;
        let mut n: usize = 0;
        proof {
            assert forall|q: int| 0 <= q < chaves.len() implies self.situacao@.contains_key(
                #[trigger] chaves[q],
            ) by {
                assert(chaves@.contains(chaves[q]));
            }
        }
        while n < chaves.len()
            invariant
                n <= chaves.len(),
                m == old(self).situacao@,
                chaves_coerentes(m),
                todos_vivos(m),
                self.controlador == old(self).controlador,
                chaves@.no_duplicates(),
                forall|k: u64| chaves@.contains(k) <==> m.contains_key(k),
                forall|k: u64| self.situacao@.contains_key(k) ==> m.contains_key(k),
                forall|q: int|
                    0 <= q < n ==> (self.situacao@.contains_key(#[trigger] chaves[q])
                        <==> m[chaves[q]].estou_vivo > 1),
                forall|q: int|
                    0 <= q < n && m[#[trigger] chaves[q]].estou_vivo > 1 ==> self.situacao@[chaves[q]]
                        == (Situacao {
                        estou_vivo: (m[chaves[q]].estou_vivo - 1) as u32,
                        ..m[chaves[q]]
                    }),
                forall|q: int|
                    n <= q < chaves.len() ==> self.situacao@.contains_key(#[trigger] chaves[q])
                        && self.situacao@[chaves[q]] == m[chaves[q]],
            decreases chaves.len() - n,
        {
            let k = chaves[n];
            assert(chaves@.contains(k));
            let mut s: Situacao = *self.situacao.get(&k).unwrap();
            if s.estou_vivo <= 1 {
                self.situacao.remove(&k);
            } else {
                s.estou_vivo = s.estou_vivo - 1;
                self.situacao.insert(k, s);
            }
            n = n + 1;
        }
        proof {
            assert forall|k: u64| self.situacao@.contains_key(k) <==> envelhece(m).contains_key(
                k,
            ) by {
                if m.contains_key(k) {
                    assert(chaves@.contains(k));
                    let q = choose|q: int| 0 <= q < chaves.len() && chaves[q] == k;
                    assert(self.situacao@.contains_key(chaves[q]) <==> m[chaves[q]].estou_vivo > 1);
                }
            }
            assert forall|k: u64| self.situacao@.contains_key(k) implies self.situacao@[k]
                == envelhece(m)[k] by {
                assert(chaves@.contains(k));
                let q = choose|q: int| 0 <= q < chaves.len() && chaves[q] == k;
                assert(m[chaves[q]].estou_vivo > 1);
            }
            assert(self.situacao@ =~= envelhece(m));
        }
    }

    /// Runs the strategy on the records.
    fn roda_estrategia(&mut self, tempo_decorrido: u32)
        requires
            old(self).inv(),
        ensures
            final(self).inv(),
            final(self).estrategia_em_uso() == old(self).estrategia_em_uso().avanca(tempo_decorrido),
            final(self).base() == comanda(old(self).base(), final(self).estrategia_em_uso()),
    {
        let ghost m = self.situacao@;
        match &mut self.controlador {
            MeuControlador::Semaforo(ss) => ss.estrategia(tempo_decorrido, &mut self.situacao),
            MeuControlador::FazNada(nn) => nn.estrategia(tempo_decorrido, &mut self.situacao),
        }
        proof {
            assert forall|k: u64| m.contains_key(k) implies #[trigger] self.situacao@[k] == comanda(
                m,
                self.controlador,
            )[k] by {
                assert(m[k].so_muda_desejada(self.situacao@[k]));
            }
            assert(self.situacao@ =~= comanda(m, self.controlador));
        }
    }

    /// Sends to every vehicle on record the acceleration wanted from it and
    /// a request for a report.
    fn envia_ordens(&self, comunicacao: &mut Comunicacao)
        requires
            self.inv(),
        ensures
            final(comunicacao)@ == (Caixas {
                do_controlador: com_ordens(old(comunicacao)@.do_controlador, self.base()),
                ..old(comunicacao)@
            }),
    {
        broadcast use vstd::std_specs::hash::group_hash_axioms;

        let chaves = placas(&self.situacao);
        let ghost filas = comunicacao@.do_controlador;
        let mut n: usize = 0;
        proof {
            comunicacao.lema_completas();
        }
        while n < chaves.len()
            invariant
                n <= chaves.len(),
                filas == old(comunicacao)@.do_controlador,
                chaves@.no_duplicates(),
                forall|k: u64| chaves@.contains(k) <==> self.situacao@.contains_key(k),
                comunicacao@.de_veiculos == old(comunicacao)@.de_veiculos,
                comunicacao@.completas(),
                forall|q: int|
                    0 <= q < n ==> comunicacao@.do_controlador[#[trigger] chaves[q]] == com_ordens(
                        filas,
                        self.situacao@,
                    )[chaves[q]],
                forall|q: int|
                    n <= q < chaves.len() ==> comunicacao@.do_controlador[#[trigger] chaves[q]]
                        == filas[chaves[q]],
                forall|k: u64|
                    !self.situacao@.contains_key(k) ==> #[trigger] comunicacao@.do_controlador[k]
                        == filas[k],
            decreases chaves.len() - n,
        {
            let k = chaves[n];
            assert(chaves@.contains(k));
            let s: Situacao = *self.situacao.get(&k).unwrap();
            comunicacao.send_por_controlador(
                k,
                MensagemDoControlador::SetAcel { placa: k, acel: s.acel_desejada },
            );
            comunicacao.send_por_controlador(k, MensagemDoControlador::PedeSituacao { placa: k });
            proof {
                assert forall|q: int| 0 <= q < chaves.len() && q != n implies chaves[q] != k by {}
            }
            n = n + 1;
        }
        proof {
            let pronto = com_ordens(filas, self.situacao@);
            assert forall|k: u64| #[trigger] comunicacao@.do_controlador[k] == pronto[k] by {
                if self.situacao@.contains_key(k) {
                    assert(chaves@.contains(k));
                    let q = choose|q: int| 0 <= q < chaves.len() && chaves[q] == k;
                    assert(comunicacao@.do_controlador[chaves[q]] == pronto[chaves[q]]);
                }
            }
            assert(comunicacao@.do_controlador =~= pronto);
        }
    }

    /// One control cycle, `tempo_decorrido` milliseconds after the last one.
    ///
    /// The controller reads every message that vehicles have sent, lets its
    /// records age, runs its strategy on those that remain and sends each of
    /// their vehicles the acceleration wanted from it, followed by a request
    /// for a report.
    pub fn acao_controle(&mut self, tempo_decorrido: u32, comunicacao: &mut Comunicacao)
        requires
            old(self).inv(),
        ensures
            final(self).inv(),
            old(self).controlou(final(self), tempo_decorrido, old(comunicacao)@),
            final(comunicacao)@ == Controle::caixas_depois_do_ciclo(final(self), old(comunicacao)@),
    {
        self.recebe_mensagens(comunicacao);
        self.envelhece_registros();
        self.roda_estrategia(tempo_decorrido);
        self.envia_ordens(comunicacao);
    }
}

} // verus!
