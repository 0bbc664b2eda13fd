//! The two lanes, their geometry and the vehicles that travel on them.
//!
//! Position zero of a lane is the line where the crossing begins. Negative
//! positions lie on the approach, positive ones inside or past the crossing. A
//! vehicle's position is that of its front bumper.
//!
//! ```text
//!                         width V
//!                         |    |
//!                         |    |
//! ------------------------+----+--------
//!     lane H  > > >       |    |      width H
//! ------------------------+----+--------
//!     perimeter H         |    |
//!                         | ^  | perimeter V
//!                         | ^  |
//!                         |lane|
//!                         | V  |
//! ```
use crate::comunicacao::{Caixas, Comunicacao, MensagemDeVeiculo};
use crate::transito::veiculos::{Carro, VELOCIDADE_CRUZEIRO};
use vstd::prelude::*;

pub mod placas;
pub mod veiculos;

verus! {

/// Width of lane H, in micrometres.
pub const VIAH_LARGURA: u32 = 4_000_000;

/// Width of lane V, in micrometres.
pub const VIAV_LARGURA: u32 = 4_000_000;

/// Length of the approach of lane H that is simulated, in micrometres.
pub const VIAH_PERIMETRO: i64 = 150_000_000;

/// Length of the approach of lane V that is simulated, in micrometres.
pub const VIAV_PERIMETRO: i64 = 150_000_000;

/// Stretch of lane H that is shown beyond the crossing, in micrometres.
pub const VIAH_MARGEM: i64 = 15_000_000;

/// Stretch of lane V that is shown beyond the crossing, in micrometres.
pub const VIAV_MARGEM: i64 = 15_000_000;

/// One of the two lanes that meet at the crossing.
#[derive(Clone, Copy, Debug, PartialEq, Eq, Structural)]
pub enum Via {
    ViaH,
    ViaV,
}

impl Via {
    /// The lane that crosses this one.
    pub open spec fn outra(self) -> Via {
        match self {
            Via::ViaH => Via::ViaV,
            Via::ViaV => Via::ViaH,
        }
    }

    /// Length of this lane's approach.
    pub open spec fn perimetro(self) -> i64 {
        match self {
            Via::ViaH => VIAH_PERIMETRO,
            Via::ViaV => VIAV_PERIMETRO,
        }
    }

    /// Width of this lane.
    pub open spec fn largura(self) -> u32 {
        match self {
            Via::ViaH => VIAH_LARGURA,
            Via::ViaV => VIAV_LARGURA,
        }
    }

    /// Distance between the start of the crossing and its far side for a
    /// vehicle on this lane: the width of the lane it crosses.
    pub open spec fn travessia(self) -> u32 {
        self.outra().largura()
    }
}

impl Via {
    /// Computes [`Via::outra`].
    pub fn outra_via(self) -> (r: Via)
        ensures
            r == self.outra(),
    {
        match self {
            Via::ViaH => Via::ViaV,
            Via::ViaV => Via::ViaH,
        }
    }

    /// Computes [`Via::perimetro`].
    pub fn perimetro_da_via(self) -> (r: i64)
        ensures
            r == self.perimetro(),
    {
        match self {
            Via::ViaH => VIAH_PERIMETRO,
            Via::ViaV => VIAV_PERIMETRO,
        }
    }

    /// Computes [`Via::travessia`].
    pub fn travessia_da_via(self) -> (r: u32)
        ensures
            r == self.travessia(),
    {
        match self {
            Via::ViaH => VIAV_LARGURA,
            Via::ViaV => VIAH_LARGURA,
        }
    }
}

/// A lane whose last vehicle has its rear bumper less than this far from the
/// entry, in micrometres, is at a standstill and takes no more vehicles.
pub const DISTANCIA_PARADA: i64 = 500_000;

/// A lane whose last vehicle has its rear bumper less than this far from the
/// entry, in micrometres, is congested: a vehicle enters it no faster than
/// that last vehicle travels.
pub const DISTANCIA_CONGESTIONADA: i64 = 4_000_000;

/// Where two vehicles have met.
#[derive(Clone, Copy, Debug, PartialEq, Eq)]
pub enum Colisao {
    /// A vehicle of lane H has reached the one ahead of it.
    ViaH,
    /// A vehicle of lane V has reached the one ahead of it.
    ViaV,
    /// A vehicle of each lane is inside the crossing.
    Cruzamento,
}

impl Colisao {
    /// The collision in words.
    pub fn descricao(&self) -> (r: &'static str)
        ensures
            r@ == (match self {
                Colisao::ViaH => "Colisão via H"@,
                Colisao::ViaV => "Colisão via V"@,
                Colisao::Cruzamento => "Colisão dentro do cruzamento"@,
            }),
    {
        match self {
            Colisao::ViaH => "Colisão via H",
            Colisao::ViaV => "Colisão via V",
            Colisao::Cruzamento => "Colisão dentro do cruzamento",
        }
    }
}

/// Why a vehicle could not enter a lane.
#[derive(Clone, Copy, Debug, PartialEq, Eq)]
pub enum ErroChegada {
    /// The last vehicle of the lane is too near to the entry.
    ViaCongestionada,
    /// Every plate has been given out.
    PlacasEsgotadas,
}

impl ErroChegada {
    /// The refusal in words.
    pub fn descricao(&self) -> (r: &'static str)
        ensures
            r@ == (match self {
                ErroChegada::ViaCongestionada => "Via congestionada"@,
                ErroChegada::PlacasEsgotadas => "Placas esgotadas"@,
            }),
    {
        match self {
            ErroChegada::ViaCongestionada => "Via congestionada",
            ErroChegada::PlacasEsgotadas => "Placas esgotadas",
        }
    }
}

/// Every vehicle of `s` respects its limits and is on `via`.
pub open spec fn via_bem_formada(s: Seq<Carro>, via: Via) -> bool {
    forall|i: int| 0 <= i < s.len() ==> (#[trigger] s[i]).bem_formado() && s[i].via == via
}

/// The plates of `s` grow from the first vehicle to the last, as they were
/// given out, and all are under `criados`.
pub open spec fn placas_em_ordem(s: Seq<Carro>, criados: u64) -> bool {
    &&& forall|i: int| 0 <= i < s.len() ==> (#[trigger] s[i]).placa < criados
    &&& forall|i: int, j: int|
        0 <= i < j < s.len() ==> (#[trigger] s[i]).placa < (#[trigger] s[j]).placa
}

/// No vehicle of `h` has the plate of a vehicle of `v`.
pub open spec fn placas_separadas(h: Seq<Carro>, v: Seq<Carro>) -> bool {
    forall|i: int, j: int|
        0 <= i < h.len() && 0 <= j < v.len() ==> (#[trigger] h[i]).placa != (#[trigger] v[j]).placa
}

/// The vehicle at place `i` of `s` has been reached by the one behind it:
/// its rear bumper is at or behind the front of the next vehicle.
pub open spec fn encostou(s: Seq<Carro>, i: int) -> bool {
    s[i].traseira() <= s[i + 1].pos_atual
}

/// Some vehicle of `s` has been reached by the one behind it.
pub open spec fn bateu_na_via(s: Seq<Carro>) -> bool {
    exists|i: int| 0 <= i < s.len() - 1 && #[trigger] encostou(s, i)
}

/// Every vehicle of `s` has its rear bumper ahead of the front of the next.
pub open spec fn via_sem_batida(s: Seq<Carro>) -> bool {
    forall|i: int| 0 <= i < s.len() - 1 ==> !#[trigger] encostou(s, i)
}

/// The vehicle `c` of lane `via` is inside the crossing: its front has
/// passed the line where the crossing begins and its rear has not left the
/// far side.
pub open spec fn dentro_do_cruzamento(c: Carro, via: Via) -> bool {
    c.pos_atual > 0 && c.pos_atual < via.travessia() + c.comprimento
}

/// Some vehicle of `s`, on lane `via`, is inside the crossing.
pub open spec fn cruzando(s: Seq<Carro>, via: Via) -> bool {
    exists|i: int| 0 <= i < s.len() && dentro_do_cruzamento(#[trigger] s[i], via)
}

/// Velocity at which a vehicle enters `via` behind the vehicles `s`, or
/// `None` where it cannot enter.
///
/// With the rear of the last vehicle [`DISTANCIA_CONGESTIONADA`] or more from
/// the entry, or no vehicle at all, it enters at cruise velocity. Nearer
/// than that it enters at the velocity of the last vehicle or at cruise
/// velocity, whichever is less. Nearer than [`DISTANCIA_PARADA`] it does not
/// enter.
pub open spec fn velocidade_de_chegada(s: Seq<Carro>, via: Via) -> Option<u32> {
    if s.len() == 0 {
        Some(VELOCIDADE_CRUZEIRO)
    } else {
        let distancia = via.perimetro() + s.last().traseira();
        if distancia < DISTANCIA_PARADA {
            None
        } else if distancia < DISTANCIA_CONGESTIONADA {
            Some(
                if s.last().vel_atual < VELOCIDADE_CRUZEIRO {
                    s.last().vel_atual
                } else {
                    VELOCIDADE_CRUZEIRO
                },
            )
        } else {
            Some(VELOCIDADE_CRUZEIRO)
        }
    }
}

/// The vehicle that enters `via` with plate `placa` at velocity `vel`.
pub open spec fn carro_que_chega(placa: u64, via: Via, vel: u32) -> Carro {
    Carro {
        placa,
        via,
        acel_max: veiculos::ACELERACAO_MAXIMA,
        acel_min: veiculos::ACELERACAO_MINIMA,
        vel_max: veiculos::VELOCIDADE_MAXIMA,
        comprimento: veiculos::CARRO_COMPRIMENTO,
        pos_atual: (-via.perimetro()) as i64,
        vel_atual: vel,
        acel_atual: 0,
    }
}

/// What a vehicle announces when it enters.
pub open spec fn aviso_de_chegada(c: Carro) -> MensagemDeVeiculo {
    MensagemDeVeiculo::Chegada {
        placa: c.placa,
        via: c.via,
        acel_max: c.acel_max,
        acel_min: c.acel_min,
        vel_max: c.vel_max,
        comprimento: c.comprimento,
    }
}

/// The vehicles `s` and the mailboxes `caixas` after each vehicle, from the
/// first to the last, has had its tick of `tickms` milliseconds.
pub open spec fn avanca_via(s: Seq<Carro>, tickms: u32, caixas: Caixas) -> (Seq<Carro>, Caixas)
    decreases s.len(),
{
    if s.len() == 0 {
        (Seq::empty(), caixas)
    } else {
        let (antes, cx) = avanca_via(s.drop_last(), tickms, caixas);
        (
            antes.push(s.last().depois_do_tick(tickms, cx)),
            s.last().caixas_depois_do_tick(tickms, cx),
        )
    }
}

/// The vehicles `s` of lane `via` without the first one, if its rear bumper
/// has left the crossing; all of them if it has not.
pub open spec fn retira_lider(s: Seq<Carro>, via: Via) -> Seq<Carro> {
    if s.len() > 0 && s[0].pos_atual > s[0].comprimento + via.travessia() {
        s.drop_first()
    } else {
        s
    }
}

/// The vehicles `depois` are those of `antes`, but for some that left at the
/// front, and none of them is behind the place it had.
pub open spec fn ninguem_recuou(antes: Seq<Carro>, depois: Seq<Carro>) -> bool {
    &&& depois.len() <= antes.len()
    &&& forall|i: int|
        0 <= i < depois.len() ==> (#[trigger] depois[i]).placa == antes[i + antes.len()
            - depois.len()].placa && depois[i].pos_atual >= antes[i + antes.len()
            - depois.len()].pos_atual
}

/// A tick moves no vehicle backwards, gives none a velocity over its limit,
/// and keeps plates and lanes.
pub proof fn lema_avanca_via(s: Seq<Carro>, via: Via, tickms: u32, caixas: Caixas)
    requires
        via_bem_formada(s, via),
    ensures
        avanca_via(s, tickms, caixas).0.len() == s.len(),
        via_bem_formada(avanca_via(s, tickms, caixas).0, via),
        ninguem_recuou(s, avanca_via(s, tickms, caixas).0),
        forall|i: int|
            0 <= i < s.len() ==> (#[trigger] avanca_via(s, tickms, caixas).0[i]).comprimento
                == s[i].comprimento,
    decreases s.len(),
{
    if s.len() > 0 {
        let (antes, cx) = avanca_via(s.drop_last(), tickms, caixas);
        lema_avanca_via(s.drop_last(), via, tickms, caixas);
        let c = s.last();
        veiculos::lema_depois_do_tick(c, tickms, cx);
        let r = avanca_via(s, tickms, caixas).0;
        assert forall|i: int| 0 <= i < r.len() implies (#[trigger] r[i]).bem_formado() && r[i].via
            == via && r[i].placa == s[i].placa && r[i].pos_atual >= s[i].pos_atual
            && r[i].comprimento == s[i].comprimento by {
            if i < s.len() - 1 {
                assert(r[i] == antes[i]);
                assert(s.drop_last()[i] == s[i]);
            }
        }
    }
}

/// The vehicles of both lanes.
pub struct Transito {
    carros_via_h: Vec<Carro>,
    carros_via_v: Vec<Carro>,
    carros_criados: u64,
}

impl Transito {
    /// The vehicles of `via`, the one that entered first at the front.
    pub closed spec fn carros(&self, via: Via) -> Seq<Carro> {
        match via {
            Via::ViaH => self.carros_via_h@,
            Via::ViaV => self.carros_via_v@,
        }
    }

    /// Number of plates given out so far, and the next plate.
    pub closed spec fn criados(&self) -> u64 {
        self.carros_criados
    }

    /// Every vehicle is on its lane and respects its limits, and no plate
    /// occurs twice.
    pub open spec fn inv(&self) -> bool {
        &&& via_bem_formada(self.carros(Via::ViaH), Via::ViaH)
        &&& via_bem_formada(self.carros(Via::ViaV), Via::ViaV)
        &&& placas_em_ordem(self.carros(Via::ViaH), self.criados())
        &&& placas_em_ordem(self.carros(Via::ViaV), self.criados())
        &&& placas_separadas(self.carros(Via::ViaH), self.carros(Via::ViaV))
    }

    /// In neither lane has a vehicle been reached by the one behind it.
    pub open spec fn sem_batida(&self) -> bool {
        via_sem_batida(self.carros(Via::ViaH)) && via_sem_batida(self.carros(Via::ViaV))
    }

    /// The collision that the vehicles show, if any. A collision along lane H
    /// is told before one along lane V, and that before one inside the
    /// crossing.
    pub open spec fn colisao(&self) -> Option<Colisao> {
        if bateu_na_via(self.carros(Via::ViaH)) {
            Some(Colisao::ViaH)
        } else if bateu_na_via(self.carros(Via::ViaV)) {
            Some(Colisao::ViaV)
        } else if cruzando(self.carros(Via::ViaH), Via::ViaH) && cruzando(
            self.carros(Via::ViaV),
            Via::ViaV,
        ) {
            Some(Colisao::Cruzamento)
        } else {
            None
        }
    }

    /// Where the vehicles show no collision, every vehicle has its rear bumper
    /// ahead of the front of the vehicle behind it, and at most one lane has a
    /// vehicle inside the crossing.
    pub proof fn lema_sem_colisao(&self)
        requires
            self.colisao() is None,
        ensures
            self.sem_batida(),
            !(cruzando(self.carros(Via::ViaH), Via::ViaH) && cruzando(
                self.carros(Via::ViaV),
                Via::ViaV,
            )),
    {
    }

    /// `depois` is this traffic after a tick of `tickms` milliseconds that
    /// found the mailboxes as `caixas`.
    pub open spec fn andou(&self, depois: &Transito, tickms: u32, caixas: Caixas) -> bool {
        let (h, cx) = avanca_via(self.carros(Via::ViaH), tickms, caixas);
        let (v, cxv) = avanca_via(self.carros(Via::ViaV), tickms, cx);
        &&& depois.criados() == self.criados()
        &&& depois.carros(Via::ViaH) == retira_lider(h, Via::ViaH)
        &&& depois.carros(Via::ViaV) == retira_lider(v, Via::ViaV)
    }

    /// The mailboxes after that tick.
    pub open spec fn caixas_depois_do_tick(&self, tickms: u32, caixas: Caixas) -> Caixas {
        let (h, cx) = avanca_via(self.carros(Via::ViaH), tickms, caixas);
        avanca_via(self.carros(Via::ViaV), tickms, cx).1
    }

    /// `depois` is this traffic after a vehicle has arrived at `via` with the
    /// outcome `r`, and `caixas_depois` what that made of `caixas`.
    pub open spec fn chegou(
        &self,
        depois: &Transito,
        via: Via,
        r: Result<u64, ErroChegada>,
        caixas: Caixas,
        caixas_depois: Caixas,
    ) -> bool {
        &&& depois.carros(via.outra()) == self.carros(via.outra())
        &&& match r {
            Ok(placa) => {
                &&& velocidade_de_chegada(self.carros(via), via) is Some
                &&& self.criados() < u64::MAX
                &&& placa == self.criados()
                &&& depois.criados() == placa + 1
                &&& depois.carros(via) == self.carros(via).push(
                    carro_que_chega(
                        placa,
                        via,
                        velocidade_de_chegada(self.carros(via), via).unwrap(),
                    ),
                )
                &&& caixas_depois == caixas.com_aviso(aviso_de_chegada(depois.carros(via).last()))
            },
            Err(erro) => {
                &&& erro == ErroChegada::ViaCongestionada <==> velocidade_de_chegada(
                    self.carros(via),
                    via,
                ) is None
                &&& erro == ErroChegada::PlacasEsgotadas <==> velocidade_de_chegada(
                    self.carros(via),
                    via,
                ) is Some && self.criados() == u64::MAX
                &&& depois.carros(via) == self.carros(via)
                &&& depois.criados() == self.criados()
                &&& caixas_depois == caixas
            },
        }
    }

    /// Two empty lanes.
    pub fn new() -> (t: Self)
        ensures
            t.inv(),
            t.carros(Via::ViaH) == Seq::<Carro>::empty(),
            t.carros(Via::ViaV) == Seq::<Carro>::empty(),
            t.criados() == 0,
    {
        Self { carros_via_h: Vec::new(), carros_via_v: Vec::new(), carros_criados: 0 }
    }

    /// Lanes that hold the given vehicles, each list from the vehicle nearest
    /// to the end of its lane to the one nearest to the entry.
    /// `carros_criados` is the plate that the next vehicle to enter gets.
    pub fn com_carros(carros_via_h: Vec<Carro>, carros_via_v: Vec<Carro>, carros_criados: u64) -> (t:
        Self)
        requires
            via_bem_formada(carros_via_h@, Via::ViaH),
            via_bem_formada(carros_via_v@, Via::ViaV),
            placas_em_ordem(carros_via_h@, carros_criados),
            placas_em_ordem(carros_via_v@, carros_criados),
            placas_separadas(carros_via_h@, carros_via_v@),
        ensures
            t.inv(),
            t.carros(Via::ViaH) == carros_via_h@,
            t.carros(Via::ViaV) == carros_via_v@,
            t.criados() == carros_criados,
    {
        Self { carros_via_h, carros_via_v, carros_criados }
    }

    /// Whether both lanes are empty.
    pub fn vazio(&self) -> (r: bool)
        ensures
            r == (self.carros(Via::ViaH).len() == 0 && self.carros(Via::ViaV).len() == 0),
    {
        self.carros_via_h.is_empty() && self.carros_via_v.is_empty()
    }

    /// The vehicles of `via`, the one that entered first at the front.
    pub fn carros_da_via(&self, via: Via) -> (r: &Vec<Carro>)
        ensures
            r@ == self.carros(via),
    {
        match via {
            Via::ViaH => &self.carros_via_h,
            Via::ViaV => &self.carros_via_v,
        }
    }

    /// Number of plates given out so far.
    pub fn carros_criados(&self) -> (r: u64)
        ensures
            r == self.criados(),
    {
        self.carros_criados
    }

    /// Tells whether a collision has happened, and where.
    ///
    /// Where none is told, every vehicle has its rear bumper ahead of the
    /// front of the vehicle behind it.
    pub fn ocorreu_colisao(&self) -> (r: Option<Colisao>)
        ensures
            r == self.colisao(),
            r is None ==> self.sem_batida(),
    {
        if bateu(&self.carros_via_h) {
            return Some(Colisao::ViaH);
        }
        if bateu(&self.carros_via_v) {
            return Some(Colisao::ViaV);
        }
        let cruzando_h = alguem_cruzando(&self.carros_via_h, Via::ViaH);
        let cruzando_v = alguem_cruzando(&self.carros_via_v, Via::ViaV);
        if cruzando_h && cruzando_v {
            return Some(Colisao::Cruzamento);
        }
        None
    }

    /// Velocity at which a vehicle would enter `via` now.
    fn define_velocidade_chegada(&self, via: Via) -> (r: Option<u32>)
        ensures
            r == velocidade_de_chegada(self.carros(via), via),
    {
        let carros = self.carros_da_via(via);
        if carros.is_empty() {
            Some(VELOCIDADE_CRUZEIRO)
        } else {
            let ultimo_carro = &carros[carros.len() - 1];
            let distancia: i128 = via.perimetro_da_via() as i128 + ultimo_carro.pos_atual as i128
                - ultimo_carro.comprimento as i128;
            if distancia < DISTANCIA_PARADA as i128 {
                None
            } else if distancia < DISTANCIA_CONGESTIONADA as i128 {
                if ultimo_carro.vel_atual < VELOCIDADE_CRUZEIRO {
                    Some(ultimo_carro.vel_atual)
                } else {
                    Some(VELOCIDADE_CRUZEIRO)
                }
            } else {
                Some(VELOCIDADE_CRUZEIRO)
            }
        }
    }

    /// A vehicle arrives at the entry of `via`.
    ///
    /// It is refused where [`velocidade_de_chegada`] gives no velocity, and
    /// where no plate is left. Otherwise it enters at that velocity with the
    /// next plate, which is returned, and announces itself to the controller.
    /// A lane without a collision still has none after a vehicle has entered.
    pub fn chega_carro(&mut self, via: Via, comunicacao: &mut Comunicacao) -> (r: Result<
        u64,
        ErroChegada,
    >)
        requires
            old(self).inv(),
        ensures
            final(self).inv(),
            old(self).chegou(final(self), via, r, old(comunicacao)@, final(comunicacao)@),
            via_sem_batida(old(self).carros(via)) ==> via_sem_batida(final(self).carros(via)),
    {
        let vel = match self.define_velocidade_chegada(via) {
            None => {
                return Err(ErroChegada::ViaCongestionada);
            },
            Some(vel) => vel,
        };
        if self.carros_criados == u64::MAX {
            return Err(ErroChegada::PlacasEsgotadas);
        }
        let nova_placa = self.carros_criados;
        self.carros_criados = self.carros_criados + 1;
        let mut novo_carro = Carro::new(nova_placa, via, 0);
        novo_carro.vel_atual = vel;
        comunicacao.send_por_veiculo(
            MensagemDeVeiculo::Chegada {
                placa: nova_placa,
                via,
                acel_max: novo_carro.acel_max,
                acel_min: novo_carro.acel_min,
                vel_max: novo_carro.vel_max,
                comprimento: novo_carro.comprimento,
            },
        );
        let ghost antigos = self.carros(via);
        match via {
            Via::ViaH => {
                self.carros_via_h.push(novo_carro);
            },
            Via::ViaV => {
                self.carros_via_v.push(novo_carro);
            },
        }
        proof {
            let novos = self.carros(via);
            assert forall|i: int| 0 <= i < novos.len() implies (#[trigger] novos[i]).bem_formado()
                && novos[i].via == via && novos[i].placa < self.criados() by {
                if i < antigos.len() {
                    assert(novos[i] == antigos[i]);
                }
            }
            assert forall|i: int, j: int| 0 <= i < j < novos.len() implies (#[trigger] novos[i]).placa
                < (#[trigger] novos[j]).placa by {
                if j < antigos.len() {
                    assert(novos[j] == antigos[j]);
                }
            }
            if via_sem_batida(antigos) {
                assert forall|i: int| 0 <= i < novos.len() - 1 implies !#[trigger] encostou(
                    novos,
                    i,
                ) by {
                    if i + 1 < antigos.len() {
                        assert(!encostou(antigos, i));
                    } else {
                        assert(antigos.last() == antigos[i]);
                    }
                }
            }
        }
        Ok(nova_placa)
    }

    /// Advances every vehicle by `tickms` milliseconds, those of lane H
    /// first and each lane from its first vehicle to its last, and then takes
    /// out of each lane its first vehicle if it has left the crossing.
    ///
    /// No vehicle ends behind the place it had, and none with a velocity over
    /// its limit.
    pub fn tick(&mut self, tickms: u32, comunicacao: &mut Comunicacao)
        requires
            old(self).inv(),
        ensures
            final(self).inv(),
            old(self).andou(final(self), tickms, old(comunicacao)@),
            final(comunicacao)@ == old(self).caixas_depois_do_tick(tickms, old(comunicacao)@),
            ninguem_recuou(old(self).carros(Via::ViaH), final(self).carros(Via::ViaH)),
            ninguem_recuou(old(self).carros(Via::ViaV), final(self).carros(Via::ViaV)),
    {
        let ghost h0 = self.carros_via_h@;
        let ghost v0 = self.carros_via_v@;
        let ghost cx0 = comunicacao@;
        avanca_carros(&mut self.carros_via_h, tickms, comunicacao);
        let ghost cx1 = comunicacao@;
        avanca_carros(&mut self.carros_via_v, tickms, comunicacao);
        sai_lider(&mut self.carros_via_h, Via::ViaH);
        sai_lider(&mut self.carros_via_v, Via::ViaV);
        proof {
            lema_tick(h0, v0, self.carros_criados, tickms, cx0, cx1);
        }
    }
}

/// Takes the first vehicle out of `carros`, the vehicles of lane `via`, if
/// its rear bumper has left the crossing.
pub fn sai_lider(carros: &mut Vec<Carro>, via: Via)
    ensures
        final(carros)@ == retira_lider(old(carros)@, via),
{
    if !carros.is_empty() {
        let mais_antigo = &carros[0];
        if mais_antigo.pos_atual as i128 > mais_antigo.comprimento as i128
            + via.travessia_da_via() as i128 {
            carros.remove(0);
        }
    }
}

proof fn lema_tick(
    h0: Seq<Carro>,
    v0: Seq<Carro>,
    criados: u64,
    tickms: u32,
    cx0: Caixas,
    cx1: Caixas,
)
    requires
        via_bem_formada(h0, Via::ViaH),
        via_bem_formada(v0, Via::ViaV),
        placas_em_ordem(h0, criados),
        placas_em_ordem(v0, criados),
        placas_separadas(h0, v0),
    ensures
        ({
            let h2 = retira_lider(avanca_via(h0, tickms, cx0).0, Via::ViaH);
            let v2 = retira_lider(avanca_via(v0, tickms, cx1).0, Via::ViaV);
            &&& via_bem_formada(h2, Via::ViaH)
            &&& via_bem_formada(v2, Via::ViaV)
            &&& placas_em_ordem(h2, criados)
            &&& placas_em_ordem(v2, criados)
            &&& placas_separadas(h2, v2)
            &&& ninguem_recuou(h0, h2)
            &&& ninguem_recuou(v0, v2)
        }),
{
    let h1 = avanca_via(h0, tickms, cx0).0;
    let v1 = avanca_via(v0, tickms, cx1).0;
    lema_avanca_via(h0, Via::ViaH, tickms, cx0);
    lema_avanca_via(v0, Via::ViaV, tickms, cx1);
    lema_retira_lider(h0, h1, Via::ViaH, criados);
    lema_retira_lider(v0, v1, Via::ViaV, criados);
    let h2 = retira_lider(h1, Via::ViaH);
    let v2 = retira_lider(v1, Via::ViaV);
    assert forall|i: int, j: int| 0 <= i < h2.len() && 0 <= j < v2.len() implies (#[trigger] h2[i]).placa
        != (#[trigger] v2[j]).placa by {
        assert(h2[i].placa == h0[i + h0.len() - h2.len()].placa);
        assert(v2[j].placa == v0[j + v0.len() - v2.len()].placa);
    }
}

proof fn lema_retira_lider(s0: Seq<Carro>, s1: Seq<Carro>, via: Via, criados: u64)
    requires
        via_bem_formada(s1, via),
        placas_em_ordem(s0, criados),
        ninguem_recuou(s0, s1),
        s1.len() == s0.len(),
    ensures
        via_bem_formada(retira_lider(s1, via), via),
        placas_em_ordem(retira_lider(s1, via), criados),
        ninguem_recuou(s0, retira_lider(s1, via)),
{
    let s2 = retira_lider(s1, via);
    let d = s1.len() - s2.len();
    assert forall|i: int| 0 <= i < s2.len() implies (#[trigger] s2[i]) == s1[i + d] by {}
    assert forall|i: int| 0 <= i < s2.len() implies (#[trigger] s2[i]).placa < criados by {
        assert(s1[i + d].placa == s0[i + d].placa);
    }
    assert forall|i: int, j: int| 0 <= i < j < s2.len() implies (#[trigger] s2[i]).placa < (
    #[trigger] s2[j]).placa by {
        assert(s1[i + d].placa == s0[i + d].placa);
        assert(s1[j + d].placa == s0[j + d].placa);
    }
    assert forall|i: int| 0 <= i < s2.len() implies (#[trigger] s2[i]).placa == s0[i + s0.len()
        - s2.len()].placa && s2[i].pos_atual >= s0[i + s0.len() - s2.len()].pos_atual by {
        assert(s2[i] == s1[i + d]);
    }
}

/// Computes [`bateu_na_via`].
pub fn bateu(carros: &Vec<Carro>) -> (r: bool)
    ensures
        r == bateu_na_via(carros@),
        !r ==> via_sem_batida(carros@),
{
    if carros.len() >= 2 {
        let mut i: usize = 0;
        while i < carros.len() - 1
            invariant
                carros.len() >= 2,
                i <= carros.len() - 1,
                forall|j: int| 0 <= j < i ==> !#[trigger] encostou(carros@, j),
            decreases carros.len() - i,
        {
            let traseira_do_i: i128 = carros[i].pos_atual as i128 - carros[i].comprimento as i128;
            if traseira_do_i <= carros[i + 1].pos_atual as i128 {
                assert(encostou(carros@, i as int));
                return true;
            }
            i = i + 1;
        }
    }
    false
}

/// Computes [`cruzando`].
pub fn alguem_cruzando(carros: &Vec<Carro>, via: Via) -> (r: bool)
    ensures
        r == cruzando(carros@, via),
{
    let largura: i128 = via.travessia_da_via() as i128;
    let mut i: usize = 0;
    while i < carros.len()
        invariant
            i <= carros.len(),
            largura == via.travessia(),
            forall|j: int| 0 <= j < i ==> !dentro_do_cruzamento(#[trigger] carros[j], via),
        decreases carros.len() - i,
    {
        let carro = &carros[i];
        if carro.pos_atual > 0 && (carro.pos_atual as i128) < largura + carro.comprimento as i128 {
            return true;
        }
        i = i + 1;
    }
    false
}

/// Gives each vehicle of `carros`, from the first to the last, its tick of
/// `tickms` milliseconds.
pub fn avanca_carros(carros: &mut Vec<Carro>, tickms: u32, comunicacao: &mut Comunicacao)
    requires
        forall|i: int| 0 <= i < old(carros).len() ==> (#[trigger] old(carros)[i]).bem_formado(),
    ensures
        final(carros)@ == avanca_via(old(carros)@, tickms, old(comunicacao)@).0,
        final(comunicacao)@ == avanca_via(old(carros)@, tickms, old(comunicacao)@).1,
{
    let ghost s0 = carros@;
    let ghost cx0 = comunicacao@;
    let mut i: usize = 0;
    while i < carros.len()
        invariant
            i <= carros.len(),
            carros.len() == s0.len(),
            s0 == old(carros)@,
            cx0 == old(comunicacao)@,
            forall|j: int| 0 <= j < s0.len() ==> (#[trigger] s0[j]).bem_formado(),
            carros@.take(i as int) == avanca_via(s0.take(i as int), tickms, cx0).0,
            comunicacao@ == avanca_via(s0.take(i as int), tickms, cx0).1,
            forall|j: int| i <= j < s0.len() ==> carros[j] == s0[j],
        decreases carros.len() - i,
    {
        let mut carro = carros[i];
        assert(carro == s0[i as int]);
        carro.tick(tickms, comunicacao);
        carros.set(i, carro);
        proof {
            assert(s0.take(i + 1).drop_last() =~= s0.take(i as int));
        }
        i = i + 1;
    }
    assert(s0.take(s0.len() as int) =~= s0);
}

} // verus!
