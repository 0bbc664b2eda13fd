//! A single vehicle and the limits that all vehicles share.
use crate::aritmetica::lema_produto;
use crate::comunicacao::{Caixas, Comunicacao, MensagemDeVeiculo, MensagemDoControlador};
use crate::transito::{Via, VIAH_PERIMETRO, VIAV_PERIMETRO};
use vstd::prelude::*;

verus! {

/// Width of a vehicle, in micrometres.
pub const CARRO_LARGURA: u32 = 2_000_000;

/// Length of a vehicle, in micrometres.
pub const CARRO_COMPRIMENTO: u32 = 4_000_000;

/// Velocity at which vehicles travel when nothing holds them back: 80 km/h,
/// in micrometres per second.
pub const VELOCIDADE_CRUZEIRO: u32 = 22_222_222;

/// Largest velocity of any vehicle: 200 km/h, in micrometres per second.
pub const VELOCIDADE_MAXIMA: u32 = 55_555_555;

/// Largest acceleration of any vehicle, in micrometres per second squared.
pub const ACELERACAO_MAXIMA: i32 = 3_000_000;

/// Smallest acceleration of any vehicle, its hardest braking, in micrometres
/// per second squared.
pub const ACELERACAO_MINIMA: i32 = -10_000_000;

/// What a vehicle is doing to its velocity.
#[derive(Clone, Copy, Debug, PartialEq, Eq)]
pub enum Marcha {
    /// Its acceleration is under zero.
    Freando,
    /// Its acceleration is zero.
    Constante,
    /// Its acceleration is over zero.
    Acelerando,
}

/// A vehicle.
#[derive(Clone, Copy, Debug, PartialEq, Eq)]
pub struct Carro {
    /// The plate: the number by which the vehicle is known.
    pub placa: u64,
    /// The lane it travels on.
    pub via: Via,
    /// Largest acceleration it can apply.
    pub acel_max: i32,
    /// Smallest acceleration it can apply: its hardest braking.
    pub acel_min: i32,
    /// Largest velocity it can reach.
    pub vel_max: u32,
    /// Its length.
    pub comprimento: u32,
    /// Position of its front bumper.
    pub pos_atual: i64,
    /// Its velocity.
    pub vel_atual: u32,
    /// The acceleration it is applying.
    pub acel_atual: i32,
}

impl Carro {
    /// The vehicle respects its own limits.
    pub open spec fn bem_formado(&self) -> bool {
        &&& self.acel_min <= self.acel_atual <= self.acel_max
        &&& self.vel_atual <= self.vel_max
    }

    /// Position of the rear bumper.
    pub open spec fn traseira(&self) -> int {
        self.pos_atual - self.comprimento
    }

    /// Distance covered in `tickms` milliseconds at the current velocity and
    /// acceleration, `v·t + a·t²/2`. A vehicle never moves backwards: where
    /// the formula gives less than zero, the distance is zero.
    pub open spec fn avanco(&self, tickms: u32) -> int {
        let dobro = 2000 * self.vel_atual * tickms + self.acel_atual * tickms * tickms;
        if dobro <= 0 {
            0
        } else {
            dobro / 2_000_000
        }
    }

    /// Velocity after `tickms` milliseconds at the current acceleration,
    /// `v + a·t`, kept between zero and the vehicle's largest velocity.
    pub open spec fn nova_velocidade(&self, tickms: u32) -> int {
        let v = self.vel_atual + (self.acel_atual * tickms) / 1000;
        if v < 0 {
            0
        } else if v > self.vel_max {
            self.vel_max as int
        } else {
            v
        }
    }

    /// The vehicle `tickms` milliseconds later, before it reads its messages.
    /// A position beyond the largest that can be held stays at the largest.
    pub open spec fn integra(&self, tickms: u32) -> Carro {
        let pos = self.pos_atual + self.avanco(tickms);
        Carro {
            pos_atual: if pos > i64::MAX {
                i64::MAX
            } else {
                pos as i64
            },
            vel_atual: self.nova_velocidade(tickms) as u32,
            ..*self
        }
    }

    /// The acceleration that the vehicle applies when told to apply `acel`:
    /// the nearest one within its own limits.
    pub open spec fn aceita(&self, acel: i32) -> i32 {
        if acel > self.acel_max {
            self.acel_max
        } else if acel < self.acel_min {
            self.acel_min
        } else {
            acel
        }
    }

    /// The vehicle after it has read `msg`.
    pub open spec fn atende(&self, msg: MensagemDoControlador) -> Carro {
        match msg {
            MensagemDoControlador::SetAcel { placa, acel } => Carro {
                acel_atual: self.aceita(acel),
                ..*self
            },
            MensagemDoControlador::PedeSituacao { placa } => *self,
        }
    }

    /// What the vehicle sends when it reads `msg`: nothing for an order, its
    /// state for a request, under the plate that the request names.
    pub open spec fn responde(&self, msg: MensagemDoControlador) -> Seq<MensagemDeVeiculo> {
        match msg {
            MensagemDoControlador::SetAcel { placa, acel } => Seq::empty(),
            MensagemDoControlador::PedeSituacao { placa } => seq![
                MensagemDeVeiculo::SituacaoAtual {
                    placa,
                    pos_atual: self.pos_atual,
                    vel_atual: self.vel_atual,
                    acel_atual: self.acel_atual,
                },
            ],
        }
    }

    /// The vehicle after it has read all of `msgs`, oldest first.
    pub open spec fn atende_todas(&self, msgs: Seq<MensagemDoControlador>) -> Carro
        decreases msgs.len(),
    {
        if msgs.len() == 0 {
            *self
        } else {
            self.atende_todas(msgs.drop_last()).atende(msgs.last())
        }
    }

    /// What the vehicle sends while it reads all of `msgs`, oldest first.
    pub open spec fn responde_todas(&self, msgs: Seq<MensagemDoControlador>) -> Seq<
        MensagemDeVeiculo,
    >
        decreases msgs.len(),
    {
        if msgs.len() == 0 {
            Seq::empty()
        } else {
            self.responde_todas(msgs.drop_last()) + self.atende_todas(msgs.drop_last()).responde(
                msgs.last(),
            )
        }
    }

    /// The vehicle after a tick of `tickms` milliseconds that finds the
    /// mailboxes as `caixas`: it has moved and then read its queue.
    pub open spec fn depois_do_tick(&self, tickms: u32, caixas: Caixas) -> Carro {
        self.integra(tickms).atende_todas(caixas.fila(self.placa))
    }

    /// The mailboxes after that tick: the vehicle's queue is empty and its
    /// answers have been added to what vehicles sent.
    pub open spec fn caixas_depois_do_tick(&self, tickms: u32, caixas: Caixas) -> Caixas {
        Caixas {
            de_veiculos: caixas.de_veiculos + self.integra(tickms).responde_todas(
                caixas.fila(self.placa),
            ),
            do_controlador: caixas.do_controlador.insert(self.placa, Seq::empty()),
        }
    }

    /// A vehicle at the far end of the perimeter of `via`, at cruise velocity,
    /// with acceleration `acel` and the limits that all vehicles share.
    pub fn new(placa: u64, via: Via, acel: i32) -> (c: Self)
        requires
            ACELERACAO_MINIMA <= acel <= ACELERACAO_MAXIMA,
        ensures
            c == (Carro {
                placa,
                via,
                acel_max: ACELERACAO_MAXIMA,
                acel_min: ACELERACAO_MINIMA,
                vel_max: VELOCIDADE_MAXIMA,
                comprimento: CARRO_COMPRIMENTO,
                pos_atual: (-via.perimetro()) as i64,
                vel_atual: VELOCIDADE_CRUZEIRO,
                acel_atual: acel,
            }),
            c.bem_formado(),
    {
        Self {
            placa,
            via,
            acel_max: ACELERACAO_MAXIMA,
            acel_min: ACELERACAO_MINIMA,
            vel_max: VELOCIDADE_MAXIMA,
            comprimento: CARRO_COMPRIMENTO,
            pos_atual: match via {
                Via::ViaH => -VIAH_PERIMETRO,
                Via::ViaV => -VIAV_PERIMETRO,
            },
            vel_atual: VELOCIDADE_CRUZEIRO,
            acel_atual: acel,
        }
    }

    /// What the vehicle is doing to its velocity.
    pub fn marcha(&self) -> (r: Marcha)
        ensures
            r == (if self.acel_atual == 0 {
                Marcha::Constante
            } else if self.acel_atual < 0 {
                Marcha::Freando
            } else {
                Marcha::Acelerando
            }),
    {
        if self.acel_atual == 0 {
            Marcha::Constante
        } else if self.acel_atual < 0 {
            Marcha::Freando
        } else {
            Marcha::Acelerando
        }
    }

    /// Moves the vehicle by `tickms` milliseconds, without reading messages.
    ///
    /// The velocity stays between zero and the vehicle's largest, and the
    /// position never decreases.
    pub fn anda(&mut self, tickms: u32)
        requires
            old(self).bem_formado(),
        ensures
            *final(self) == old(self).integra(tickms),
            final(self).bem_formado(),
            final(self).vel_atual <= final(self).vel_max,
            final(self).pos_atual >= old(self).pos_atual,
    {
        let v: i128 = self.vel_atual as i128;
        let a: i128 = self.acel_atual as i128;
        let t: i128 = tickms as i128;
        proof {
            lema_produto(v as int, t as int, 0x1_0000_0000, 0x1_0000_0000);
            lema_produto(a as int, t as int, 0x1_0000_0000, 0x1_0000_0000);
            lema_produto(a * t, t as int, 0x1_0000_0000_0000_0000, 0x1_0000_0000);
            assert(2000 * self.vel_atual * tickms == 2000 * (v * t)) by (nonlinear_arith)
                requires
                    v == self.vel_atual,
                    t == tickms,
            ;
            assert(self.acel_atual * tickms * tickms == (a * t) * t) by (nonlinear_arith)
                requires
                    a == self.acel_atual,
                    t == tickms,
            ;
        }
        let at: i128 = a * t;
        let dobro: i128 = 2000 * (v * t) + at * t;
        let avanco: i128 = if dobro <= 0 {
            0
        } else {
            dobro / 2_000_000
        };
        let pos: i128 = self.pos_atual as i128 + avanco;
        let milesimos: i128 = 1000 * v + at;
        proof {
            vstd::arithmetic::div_mod::lemma_hoist_over_denominator(at as int, v as int, 1000);
            if milesimos <= 0 {
                assert(milesimos as int / 1000 <= 0) by (nonlinear_arith)
                    requires
                        milesimos <= 0,
                ;
            } else {
                assert(milesimos as int / 1000 >= 0) by (nonlinear_arith)
                    requires
                        milesimos > 0,
                ;
            }
        }
        let vel: i128 = if milesimos <= 0 {
            0
        } else {
            milesimos / 1000
        };
        self.pos_atual = if pos > i64::MAX as i128 {
            i64::MAX
        } else {
            pos as i64
        };
        self.vel_atual = if vel > self.vel_max as i128 {
            self.vel_max
        } else {
            vel as u32
        };
    }

    /// Adopts the acceleration `acel`, brought within the vehicle's own
    /// limits: whatever is asked, the vehicle never applies an acceleration
    /// that its limits exclude.
    pub fn set_acel(&mut self, acel: i32)
        requires
            old(self).acel_min <= old(self).acel_max,
        ensures
            *final(self) == (Carro { acel_atual: old(self).aceita(acel), ..*old(self) }),
            final(self).acel_min <= final(self).acel_atual <= final(self).acel_max,
    {
        if acel > self.acel_max {
            self.acel_atual = self.acel_max;
        } else if acel < self.acel_min {
            self.acel_atual = self.acel_min;
        } else {
            self.acel_atual = acel;
        }
    }

    /// Advances the vehicle by `tickms` milliseconds and then lets it read
    /// every message addressed to its plate, oldest first.
    ///
    /// The vehicle moves at the acceleration it had when the tick began. An
    /// order changes the acceleration of the ticks to come, a request is
    /// answered with the state after the movement.
    pub fn tick(&mut self, tickms: u32, comunicacao: &mut Comunicacao)
        requires
            old(self).bem_formado(),
        ensures
            *final(self) == old(self).depois_do_tick(tickms, old(comunicacao)@),
            final(comunicacao)@ == old(self).caixas_depois_do_tick(tickms, old(comunicacao)@),
            final(self).bem_formado(),
            final(self).pos_atual >= old(self).pos_atual,
            final(self).placa == old(self).placa,
            final(self).via == old(self).via,
            final(self).comprimento == old(self).comprimento,
            final(self).acel_min == old(self).acel_min,
            final(self).acel_max == old(self).acel_max,
            final(self).vel_max == old(self).vel_max,
    {
        self.anda(tickms);
        let ghost andou = *self;
        let ghost msgs = comunicacao@.fila(self.placa);
        let ghost avisos = comunicacao@.de_veiculos;
        let ghost filas = comunicacao@.do_controlador;
        let ghost mut n: int = 0;
        proof {
            comunicacao.lema_completas();
            assert(msgs.skip(0) =~= msgs);
            assert(filas.insert(self.placa, msgs) =~= filas);
        }
        loop
            invariant
                0 <= n <= msgs.len(),
                *self == andou.atende_todas(msgs.take(n)),
                self.bem_formado(),
                self.placa == andou.placa,
                self.via == andou.via,
                self.comprimento == andou.comprimento,
                self.pos_atual == andou.pos_atual,
                self.acel_min == andou.acel_min,
                self.acel_max == andou.acel_max,
                self.vel_max == andou.vel_max,
                comunicacao@ == (Caixas {
                    de_veiculos: avisos + andou.responde_todas(msgs.take(n)),
                    do_controlador: filas.insert(andou.placa, msgs.skip(n)),
                }),
            ensures
                *self == andou.atende_todas(msgs),
                self.bem_formado(),
                self.placa == andou.placa,
                self.via == andou.via,
                self.comprimento == andou.comprimento,
                self.pos_atual == andou.pos_atual,
                self.acel_min == andou.acel_min,
                self.acel_max == andou.acel_max,
                self.vel_max == andou.vel_max,
                comunicacao@ == (Caixas {
                    de_veiculos: avisos + andou.responde_todas(msgs),
                    do_controlador: filas.insert(andou.placa, Seq::empty()),
                }),
            decreases msgs.len() - n,
        {
            let recebida = comunicacao.receive_por_veiculo(self.placa);
            match recebida {
                None => {
                    proof {
                        assert(msgs.take(n) =~= msgs);
                        assert(msgs.skip(n) =~= Seq::empty());
                    }
                    break ;
                },
                Some(msg) => {
                    proof {
                        assert(msgs.take(n + 1).drop_last() =~= msgs.take(n));
                        assert(msgs.skip(n).drop_first() =~= msgs.skip(n + 1));
                        assert(filas.insert(andou.placa, msgs.skip(n)).insert(
                            andou.placa,
                            msgs.skip(n + 1),
                        ) =~= filas.insert(andou.placa, msgs.skip(n + 1)));
                    }
                    match msg {
                        MensagemDoControlador::SetAcel { placa, acel } => {
                            self.set_acel(acel);
                            proof {
                                assert(avisos + andou.responde_todas(msgs.take(n + 1)) =~= avisos
                                    + andou.responde_todas(msgs.take(n)));
                            }
                        },
                        MensagemDoControlador::PedeSituacao { placa } => {
                            let msg = MensagemDeVeiculo::SituacaoAtual {
                                placa,
                                pos_atual: self.pos_atual,
                                vel_atual: self.vel_atual,
                                acel_atual: self.acel_atual,
                            };
                            comunicacao.send_por_veiculo(msg);
                            proof {
                                assert(avisos + andou.responde_todas(msgs.take(n + 1)) =~= (avisos
                                    + andou.responde_todas(msgs.take(n))).push(msg));
                            }
                        },
                    }
                    proof {
                        n = n + 1;
                    }
                },
            }
        }
    }
}

/// After its tick a vehicle respects its limits, is not behind the place
/// it had, and is otherwise the vehicle it was.
pub proof fn lema_depois_do_tick(c: Carro, tickms: u32, caixas: Caixas)
    requires
        c.bem_formado(),
    ensures
        c.depois_do_tick(tickms, caixas).bem_formado(),
        c.depois_do_tick(tickms, caixas).pos_atual >= c.pos_atual,
        c.depois_do_tick(tickms, caixas).placa == c.placa,
        c.depois_do_tick(tickms, caixas).via == c.via,
        c.depois_do_tick(tickms, caixas).comprimento == c.comprimento,
        c.depois_do_tick(tickms, caixas).acel_min == c.acel_min,
        c.depois_do_tick(tickms, caixas).acel_max == c.acel_max,
        c.depois_do_tick(tickms, caixas).vel_max == c.vel_max,
{
    lema_integra(c, tickms);
    lema_atende_todas(c.integra(tickms), caixas.fila(c.placa));
}

/// Movement keeps the velocity within its limit and never decreases the
/// position.
pub proof fn lema_integra(c: Carro, tickms: u32)
    requires
        c.bem_formado(),
    ensures
        c.integra(tickms).bem_formado(),
        0 <= c.integra(tickms).vel_atual <= c.vel_max,
        c.integra(tickms).pos_atual >= c.pos_atual,
        c.integra(tickms) == (Carro {
            pos_atual: c.integra(tickms).pos_atual,
            vel_atual: c.integra(tickms).vel_atual,
            ..c
        }),
{
    let dobro = 2000 * c.vel_atual * tickms + c.acel_atual * tickms * tickms;
    if dobro > 0 {
        assert(dobro / 2_000_000 >= 0) by (nonlinear_arith)
            requires
                dobro > 0,
        ;
    }
}

/// Whatever acceleration is asked of a vehicle, the one it adopts is within
/// its limits.
pub proof fn lema_aceita(c: Carro, acel: i32)
    requires
        c.acel_min <= c.acel_max,
    ensures
        c.acel_min <= c.aceita(acel) <= c.acel_max,
        c.acel_min <= acel <= c.acel_max ==> c.aceita(acel) == acel,
{
}

/// Whatever a vehicle is told, the acceleration it applies is within its
/// limits, and nothing but the acceleration changes.
pub proof fn lema_atende_todas(c: Carro, msgs: Seq<MensagemDoControlador>)
    requires
        c.acel_min <= c.acel_atual <= c.acel_max,
    ensures
        c.acel_min <= c.atende_todas(msgs).acel_atual <= c.acel_max,
        c.atende_todas(msgs) == (Carro { acel_atual: c.atende_todas(msgs).acel_atual, ..c }),
    decreases msgs.len(),
{
    if msgs.len() > 0 {
        lema_atende_todas(c, msgs.drop_last());
    }
}

} // verus!
