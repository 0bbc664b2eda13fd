//! The strategy that works as a traffic light.
//!
//! One lane is open, first on green and then on amber, while the other is
//! closed on red. When amber runs out the lanes change roles.
use crate::controlador::fila::{chaves_coerentes, eh_fila, fila_da_via, lema_lugar, lugar, ordena_via};
use crate::controlador::leis::{
    calcula_cruza_a_tempo, calcula_freada, calcula_livre, calcula_seguindo, cruza_a_tempo, freada,
    lema_leis_nos_limites, limites_em_ordem, livre, seguindo, ESPACAMENTO,
};
use crate::controlador::{Controlador, Situacao};
use crate::transito::Via;
use std::collections::HashMap;
use vstd::prelude::*;

verus! {

/// Time a lane stays on green, in milliseconds.
pub const TEMPO_VERDE: u32 = 13_000;

/// Time a lane stays on amber, in milliseconds.
pub const TEMPO_AMARELO: u32 = 5_000;

/// What a traffic light shows to one lane.
#[derive(Clone, Copy, Debug, PartialEq, Eq, Structural)]
pub enum Fase {
    /// Vehicles may pass.
    Verde,
    /// The lane is about to close.
    Amarelo,
    /// Vehicles must stop before the crossing.
    Vermelho,
}

/// A traffic light for the two lanes.
#[derive(Clone, Copy, Debug, PartialEq, Eq)]
pub struct Semaforo {
    /// Time a lane stays on green.
    pub tempo_verde: u32,
    /// Time a lane stays on amber.
    pub tempo_amarelo: u32,
    /// Time left on green; zero while on amber.
    pub restam_verde: u32,
    /// Time left on amber; it counts only while on amber.
    pub restam_amarelo: u32,
    /// The lane that is on green or amber.
    pub via_verde: Via,
    /// The lane that is on red.
    pub via_vermelho: Via,
    /// Whether the open lane is on amber.
    pub amarelo: bool,
}

/// Where the vehicle at place `i` of the lane's order `f` stops when the lane
/// is closed. The first one stops [`ESPACAMENTO`] before the crossing, and
/// each of the others that far behind the rear of the one ahead of it, taken
/// at its own stopping place.
pub open spec fn alvo_de_parada(f: Seq<Situacao>, i: int) -> int
    decreases i,
{
    if i <= 0 {
        -ESPACAMENTO
    } else {
        alvo_de_parada(f, i - 1) - f[i - 1].comprimento - ESPACAMENTO
    }
}

/// The records of `f` were those of `antes`, and `depois` differs from
/// `antes` in them only: each holds the acceleration that `sem` wants from
/// its vehicle.
pub open spec fn comandada(
    sem: Semaforo,
    via: Via,
    f: Seq<Situacao>,
    antes: Map<u64, Situacao>,
    depois: Map<u64, Situacao>,
) -> bool {
    &&& depois.dom() == antes.dom()
    &&& forall|i: int|
        0 <= i < f.len() ==> (#[trigger] f[i]).so_muda_desejada(depois[f[i].placa])
            && depois[f[i].placa].acel_desejada == sem.escolhe_na_fila(via, f, i)
    &&& forall|k: u64|
        antes.contains_key(k) && !tem_placa(f, k) ==> #[trigger] depois[k] == antes[k]
}

/// Some record of `f` has plate `k`.
pub open spec fn tem_placa(f: Seq<Situacao>, k: u64) -> bool {
    exists|i: int| 0 <= i < f.len() && (#[trigger] f[i]).placa == k
}

/// All records of `f` are in `m`, under their plates.
pub open spec fn registrada(f: Seq<Situacao>, m: Map<u64, Situacao>) -> bool {
    forall|i: int|
        0 <= i < f.len() ==> m.contains_key((#[trigger] f[i]).placa) && m[f[i].placa] == f[i]
}

/// No plate occurs twice in `f`.
pub open spec fn placas_distintas(f: Seq<Situacao>) -> bool {
    forall|i: int, j: int|
        0 <= i < j < f.len() ==> (#[trigger] f[i]).placa != (#[trigger] f[j]).placa
}

proof fn lema_alvo_limitado(f: Seq<Situacao>, i: int)
    requires
        0 <= i,
    ensures
        -(i + 1) * 0x2_0000_0000 <= alvo_de_parada(f, i) <= 0,
    decreases i,
{
    if i > 0 {
        lema_alvo_limitado(f, i - 1);
    }
}

impl Semaforo {
    /// A light that has just turned green for lane H.
    pub open spec fn inicial() -> Semaforo {
        Semaforo {
            tempo_verde: TEMPO_VERDE,
            tempo_amarelo: TEMPO_AMARELO,
            restam_verde: TEMPO_VERDE,
            restam_amarelo: TEMPO_AMARELO,
            via_verde: Via::ViaH,
            via_vermelho: Via::ViaV,
            amarelo: false,
        }
    }

    /// What the light shows to `via`.
    pub open spec fn fase_de(&self, via: Via) -> Fase {
        if via == self.via_vermelho {
            Fase::Vermelho
        } else if self.amarelo {
            Fase::Amarelo
        } else {
            Fase::Verde
        }
    }

    /// The acceleration wanted from the vehicle at place `i` of `f`, the order
    /// of the lane `via`.
    ///
    /// On red it brakes towards its stopping place. On amber it takes its
    /// largest acceleration if that brings it out of the crossing before amber
    /// ends, and brakes towards its stopping place if not. On green the first
    /// vehicle follows the law of the free road and each of the others the law
    /// for a vehicle behind another.
    #[verifier::opaque]
    pub open spec fn escolhe_na_fila(&self, via: Via, f: Seq<Situacao>, i: int) -> int {
        match self.fase_de(via) {
            Fase::Vermelho => freada(f[i], alvo_de_parada(f, i)),
            Fase::Amarelo => if cruza_a_tempo(f[i], self.restam_amarelo as int) {
                f[i].acel_max as int
            } else {
                freada(f[i], alvo_de_parada(f, i))
            },
            Fase::Verde => if i == 0 {
                livre(f[i])
            } else {
                seguindo(f[i], f[i - 1])
            },
        }
    }

    /// Computes [`Semaforo::fase_de`].
    pub fn fase(&self, via: Via) -> (r: Fase)
        ensures
            r == self.fase_de(via),
    {
        if via == self.via_vermelho {
            Fase::Vermelho
        } else if self.amarelo {
            Fase::Amarelo
        } else {
            Fase::Verde
        }
    }

    /// Lets `tempo_decorrido` milliseconds pass on the light.
    ///
    /// Green that has more time left than that goes on; otherwise amber
    /// begins, with its full time. Amber that has more time left than that
    /// goes on; otherwise the lanes change roles and green begins, with its
    /// full time.
    pub fn avanca_fase(&mut self, tempo_decorrido: u32)
        requires
            old(self).inv(),
        ensures
            final(self).inv(),
            *final(self) == old(self).avanca(tempo_decorrido),
    {
        if self.amarelo {
            if self.restam_amarelo > tempo_decorrido {
                self.restam_amarelo = self.restam_amarelo - tempo_decorrido;
            } else {
                self.amarelo = false;
                self.via_vermelho = self.via_verde;
                self.via_verde = self.via_verde.outra_via();
                self.restam_amarelo = 0;
                self.restam_verde = self.tempo_verde;
            }
        } else {
            if self.restam_verde > tempo_decorrido {
                self.restam_verde = self.restam_verde - tempo_decorrido;
            } else {
                self.amarelo = true;
                self.restam_verde = 0;
                self.restam_amarelo = self.tempo_amarelo;
            }
        }
    }

    /// Computes [`Semaforo::escolhe_na_fila`] for the vehicle at place `i` of
    /// `f`, whose stopping place is `alvo`.
    pub fn decide_na_fila(&self, via: Via, f: &Vec<Situacao>, i: usize, alvo: i128) -> (r: i32)
        requires
            i < f.len(),
            alvo == alvo_de_parada(f@, i as int),
        ensures
            r == self.escolhe_na_fila(via, f@, i as int),
    {
        proof {
            reveal(Semaforo::escolhe_na_fila);
            lema_alvo_limitado(f@, i as int);
        }
        match self.fase(via) {
            Fase::Vermelho => calcula_freada(&f[i], alvo),
            Fase::Amarelo => {
                if calcula_cruza_a_tempo(&f[i], self.restam_amarelo) {
                    f[i].acel_max
                } else {
                    calcula_freada(&f[i], alvo)
                }
            },
            Fase::Verde => {
                if i == 0 {
                    calcula_livre(&f[i])
                } else {
                    calcula_seguindo(&f[i], &f[i - 1])
                }
            },
        }
    }

    /// Writes into the records of the vehicles of `f`, the order of lane
    /// `via`, the acceleration wanted from each. Other records stay as they
    /// are.
    pub fn comanda_via(&self, via: Via, f: &Vec<Situacao>, situacao: &mut HashMap<u64, Situacao>)
        requires
            registrada(f@, old(situacao)@),
            placas_distintas(f@),
        ensures
            comandada(*self, via, f@, old(situacao)@, final(situacao)@),
    {
        broadcast use vstd::std_specs::hash::group_hash_axioms;

        let mut alvo: i128 = -(ESPACAMENTO as i128);
        let mut i: usize = 0;
        while i < f.len()
            invariant
                i <= f.len(),
                alvo == alvo_de_parada(f@, i as int),
                situacao@.dom() == old(situacao)@.dom(),
                placas_distintas(f@),
                forall|j: int|
                    0 <= j < f.len() ==> old(situacao)@.contains_key((#[trigger] f[j]).placa),
                forall|j: int|
                    0 <= j < i ==> (#[trigger] f[j]).so_muda_desejada(situacao@[f[j].placa])
                        && situacao@[f[j].placa].acel_desejada == self.escolhe_na_fila(via, f@, j),
                forall|k: u64|
                    old(situacao)@.contains_key(k) && !tem_placa(f@.take(i as int), k)
                        ==> #[trigger] situacao@[k] == old(situacao)@[k],
            decreases f.len() - i,
        {
            let acel = self.decide_na_fila(via, f, i, alvo);
            let mut s: Situacao = f[i];
            s.acel_desejada = acel;
            situacao.insert(s.placa, s);
            proof {
                lema_alvo_limitado(f@, i as int);
                assert forall|k: u64|
                    old(situacao)@.contains_key(k) && !tem_placa(
                        f@.take(i + 1),
                        k,
                    ) implies #[trigger] situacao@[k] == old(situacao)@[k] by {
                    // A plate that is not among the first i + 1 is neither
                    // the one just written nor among the first i.
                    assert(f@.take(i + 1)[i as int].placa == s.placa);
                    if tem_placa(f@.take(i as int), k) {
                        let j = choose|j: int|
                            0 <= j < i && (#[trigger] f@.take(i as int)[j]).placa == k;
                        assert(f@.take(i + 1)[j].placa == k);
                    }
                }
            }
            alvo = alvo - f[i].comprimento as i128 - ESPACAMENTO as i128;
            i = i + 1;
        }
    }
}

impl Controlador for Semaforo {
    /// The lanes have different roles, both phases take time, and the phase
    /// that is on has time left, no more than it takes in all.
    open spec fn inv(&self) -> bool {
        &&& self.via_verde != self.via_vermelho
        &&& self.tempo_verde > 0
        &&& self.tempo_amarelo > 0
        &&& self.restam_verde <= self.tempo_verde
        &&& self.restam_amarelo <= self.tempo_amarelo
        &&& self.amarelo ==> self.restam_verde == 0 && self.restam_amarelo > 0
        &&& !self.amarelo ==> self.restam_verde > 0
    }

    open spec fn avanca(&self, tempo_decorrido: u32) -> Self {
        if self.amarelo {
            if self.restam_amarelo > tempo_decorrido {
                Semaforo { restam_amarelo: (self.restam_amarelo - tempo_decorrido) as u32, ..*self }
            } else {
                Semaforo {
                    amarelo: false,
                    via_verde: self.via_verde.outra(),
                    via_vermelho: self.via_verde,
                    restam_amarelo: 0,
                    restam_verde: self.tempo_verde,
                    ..*self
                }
            }
        } else {
            if self.restam_verde > tempo_decorrido {
                Semaforo { restam_verde: (self.restam_verde - tempo_decorrido) as u32, ..*self }
            } else {
                Semaforo {
                    amarelo: true,
                    restam_verde: 0,
                    restam_amarelo: self.tempo_amarelo,
                    ..*self
                }
            }
        }
    }

    open spec fn escolhe(&self, m: Map<u64, Situacao>, placa: u64) -> int {
        let via = m[placa].via;
        let f = fila_da_via(m, via);
        self.escolhe_na_fila(via, f, lugar(f, placa))
    }

    /// A light that has just turned green for lane H.
    fn new() -> (c: Self)
        ensures
            c == Semaforo::inicial(),
    {
        Semaforo {
            tempo_verde: TEMPO_VERDE,
            tempo_amarelo: TEMPO_AMARELO,
            restam_verde: TEMPO_VERDE,
            restam_amarelo: TEMPO_AMARELO,
            via_verde: Via::ViaH,
            via_vermelho: Via::ViaV,
            amarelo: false,
        }
    }

    fn estrategia(&mut self, tempo_decorrido: u32, situacao: &mut HashMap<u64, Situacao>) {
        self.avanca_fase(tempo_decorrido);
        let ordem_via_h = ordena_via(situacao, Via::ViaH);
        let ordem_via_v = ordena_via(situacao, Via::ViaV);
        let ghost m0 = situacao@;
        proof {
            lema_filas_separadas(m0, ordem_via_h@, ordem_via_v@);
        }
        self.comanda_via(Via::ViaH, &ordem_via_h, situacao);
        let ghost m1 = situacao@;
        proof {
            lema_fila_intacta(m0, m1, ordem_via_h@, ordem_via_v@);
        }
        self.comanda_via(Via::ViaV, &ordem_via_v, situacao);
        proof {
            lema_tudo_comandado(*self, m0, m1, situacao@, ordem_via_h@, ordem_via_v@);
        }
    }
}

/// Whatever the light shows, it asks of a vehicle no acceleration that the
/// vehicle's limits exclude.
pub proof fn lema_dentro_dos_limites(sem: Semaforo, via: Via, f: Seq<Situacao>, i: int)
    requires
        0 <= i < f.len(),
        limites_em_ordem(f[i]),
    ensures
        f[i].acel_min <= sem.escolhe_na_fila(via, f, i) <= f[i].acel_max,
{
    reveal(Semaforo::escolhe_na_fila);
    lema_leis_nos_limites(f[i], f[i - 1], alvo_de_parada(f, i));
}

/// At any time one lane is open, on green or on amber, and the other is
/// closed, on red.
pub proof fn lema_uma_via_aberta(sem: Semaforo)
    requires
        sem.inv(),
    ensures
        sem.fase_de(sem.via_vermelho) == Fase::Vermelho,
        sem.fase_de(sem.via_verde) == (if sem.amarelo {
            Fase::Amarelo
        } else {
            Fase::Verde
        }),
        sem.via_vermelho == sem.via_verde.outra(),
        (sem.fase_de(Via::ViaH) == Fase::Vermelho) != (sem.fase_de(Via::ViaV) == Fase::Vermelho),
{
}

/// The clocks of a light never run under zero, and they are set at the
/// changes of phase only: while a phase lasts its clock loses the time that
/// passes, green ends in amber on the same lane with the full time of amber,
/// and amber ends in green on the other lane with the full time of green.
pub proof fn lema_relogios(sem: Semaforo, tempo_decorrido: u32)
    requires
        sem.inv(),
    ensures
        sem.avanca(tempo_decorrido).inv(),
        sem.avanca(tempo_decorrido).tempo_verde == sem.tempo_verde,
        sem.avanca(tempo_decorrido).tempo_amarelo == sem.tempo_amarelo,
        !sem.amarelo && sem.restam_verde > tempo_decorrido ==> {
            &&& !sem.avanca(tempo_decorrido).amarelo
            &&& sem.avanca(tempo_decorrido).via_verde == sem.via_verde
            &&& sem.avanca(tempo_decorrido).restam_verde == sem.restam_verde - tempo_decorrido
        },
        !sem.amarelo && sem.restam_verde <= tempo_decorrido ==> {
            &&& sem.avanca(tempo_decorrido).amarelo
            &&& sem.avanca(tempo_decorrido).via_verde == sem.via_verde
            &&& sem.avanca(tempo_decorrido).restam_amarelo == sem.tempo_amarelo
        },
        sem.amarelo && sem.restam_amarelo > tempo_decorrido ==> {
            &&& sem.avanca(tempo_decorrido).amarelo
            &&& sem.avanca(tempo_decorrido).via_verde == sem.via_verde
            &&& sem.avanca(tempo_decorrido).restam_amarelo == sem.restam_amarelo - tempo_decorrido
        },
        sem.amarelo && sem.restam_amarelo <= tempo_decorrido ==> {
            &&& !sem.avanca(tempo_decorrido).amarelo
            &&& sem.avanca(tempo_decorrido).via_verde == sem.via_vermelho
            &&& sem.avanca(tempo_decorrido).restam_verde == sem.tempo_verde
        },
{
}

proof fn lema_filas_separadas(m: Map<u64, Situacao>, fh: Seq<Situacao>, fv: Seq<Situacao>)
    requires
        eh_fila(m, Via::ViaH, fh),
        eh_fila(m, Via::ViaV, fv),
    ensures
        registrada(fh, m),
        registrada(fv, m),
        placas_distintas(fh),
        placas_distintas(fv),
        forall|i: int| 0 <= i < fv.len() ==> !tem_placa(fh, (#[trigger] fv[i]).placa),
        forall|i: int| 0 <= i < fh.len() ==> !tem_placa(fv, (#[trigger] fh[i]).placa),
{
    assert forall|i: int, j: int| 0 <= i < j < fh.len() implies (#[trigger] fh[i]).placa != (
    #[trigger] fh[j]).placa by {
        lema_lugar(m, Via::ViaH, fh, i);
        lema_lugar(m, Via::ViaH, fh, j);
    }
    assert forall|i: int, j: int| 0 <= i < j < fv.len() implies (#[trigger] fv[i]).placa != (
    #[trigger] fv[j]).placa by {
        lema_lugar(m, Via::ViaV, fv, i);
        lema_lugar(m, Via::ViaV, fv, j);
    }
    // A record that were in both lists would be on both lanes.
    assert forall|i: int| 0 <= i < fv.len() implies !tem_placa(fh, (#[trigger] fv[i]).placa) by {
        if tem_placa(fh, fv[i].placa) {
            let j = choose|j: int| 0 <= j < fh.len() && (#[trigger] fh[j]).placa == fv[i].placa;
            assert(fh[j] == fv[i]);
        }
    }
    assert forall|i: int| 0 <= i < fh.len() implies !tem_placa(fv, (#[trigger] fh[i]).placa) by {
        if tem_placa(fv, fh[i].placa) {
            let j = choose|j: int| 0 <= j < fv.len() && (#[trigger] fv[j]).placa == fh[i].placa;
            assert(fv[j] == fh[i]);
        }
    }
}

proof fn lema_fila_intacta(
    m0: Map<u64, Situacao>,
    m1: Map<u64, Situacao>,
    fh: Seq<Situacao>,
    fv: Seq<Situacao>,
)
    requires
        registrada(fv, m0),
        m1.dom() == m0.dom(),
        forall|k: u64| m0.contains_key(k) && !tem_placa(fh, k) ==> #[trigger] m1[k] == m0[k],
        forall|i: int| 0 <= i < fv.len() ==> !tem_placa(fh, (#[trigger] fv[i]).placa),
    ensures
        registrada(fv, m1),
{
    assert forall|i: int| 0 <= i < fv.len() implies m1.contains_key((#[trigger] fv[i]).placa)
        && m1[fv[i].placa] == fv[i] by {
        assert(m1[fv[i].placa] == m0[fv[i].placa]);
    }
}

proof fn lema_tudo_comandado(
    sem: Semaforo,
    m0: Map<u64, Situacao>,
    m1: Map<u64, Situacao>,
    m2: Map<u64, Situacao>,
    fh: Seq<Situacao>,
    fv: Seq<Situacao>,
)
    requires
        chaves_coerentes(m0),
        eh_fila(m0, Via::ViaH, fh),
        eh_fila(m0, Via::ViaV, fv),
        fh == fila_da_via(m0, Via::ViaH),
        fv == fila_da_via(m0, Via::ViaV),
        comandada(sem, Via::ViaH, fh, m0, m1),
        comandada(sem, Via::ViaV, fv, m1, m2),
    ensures
        m2.dom() == m0.dom(),
        forall|k: u64| #[trigger]
            m0.contains_key(k) ==> m0[k].so_muda_desejada(m2[k]) && m2[k].acel_desejada
                == sem.escolhe(m0, k),
{
    lema_filas_separadas(m0, fh, fv);
    assert forall|k: u64| #[trigger] m0.contains_key(k) implies m0[k].so_muda_desejada(m2[k])
        && m2[k].acel_desejada == sem.escolhe(m0, k) by {
        // The record of k has a place in the order of its lane. The pass
        // over that lane wrote its acceleration, the other left it alone.
        if m0[k].via == Via::ViaH {
            assert(fh.contains(m0[k]));
            let i = choose|i: int| 0 <= i < fh.len() && fh[i] == m0[k];
            lema_lugar(m0, Via::ViaH, fh, i);
            assert(m2[k] == m1[k]);
        } else {
            assert(fv.contains(m0[k]));
            let i = choose|i: int| 0 <= i < fv.len() && fv[i] == m0[k];
            lema_lugar(m0, Via::ViaV, fv, i);
            assert(m1[k] == m0[k]);
        }
    }
}

} // verus!
