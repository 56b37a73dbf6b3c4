//! The game controller: validates every incoming action against the current
//! stage and the roster, applies the commitment scheme and the resolver, and
//! mutates state only when every check passes. A failing action leaves the
//! game untouched.

use vstd::prelude::*;
use crate::tipos::{CantidadDeJugadores, Error, Etapa, Jugada, Resultado};
use crate::tipos::{cantidad_val, etapa_siguiente, resultado_de, resolver};
use crate::jugadores::{Cuenta, JugadorV, Jugadores};
use crate::jugadores::{comprometido, en_lista, err_registro, indice_de, jugador_nuevo, lemma_indice_de, revelado};
use crate::compromiso::{compromiso_de, copia_bytes, verificar};

verus! {

/// What a successful action reports; the host forwards it to its
/// notification channel.
#[derive(Debug)]
pub enum Event {
    /// The identity registered.
    Registrado { quien: Cuenta },
    /// The participant stored a commitment.
    Comprometido { quien: Cuenta, hash: Vec<u8> },
    /// The participant revealed a move that matched its commitment.
    Revelado { quien: Cuenta, jugada: Jugada },
    /// The finished game's winner; `None` on a tie.
    Fin { ganador: Option<Cuenta> },
}

/// The mathematical image of a game.
pub ghost struct JuegoV {
    pub etapa: Etapa,
    pub jugadores: Seq<JugadorV>,
}

/// How many of the two slots hold a commitment.
pub open spec fn comprometidos_2(js: Seq<JugadorV>) -> int
    recommends
        js.len() == 2,
{
    (if comprometido(js[0]) { 1int } else { 0int })
        + (if comprometido(js[1]) { 1int } else { 0int })
}

/// How many of the two slots hold a revealed move.
pub open spec fn revelados_2(js: Seq<JugadorV>) -> int
    recommends
        js.len() == 2,
{
    (if revelado(js[0]) { 1int } else { 0int }) + (if revelado(js[1]) { 1int } else { 0int })
}

/// The game's well-formedness: the stage's sub-count equals the number of
/// slots that have completed the stage's action, earlier stages' actions are
/// complete and later stages' actions have not begun, and the identities are
/// pairwise distinct.
pub open spec fn invariante(g: JuegoV) -> bool {
    &&& g.jugadores.len() <= 2
    &&& (g.jugadores.len() == 2 ==> g.jugadores[0].cuenta != g.jugadores[1].cuenta)
    &&& match g.etapa {
        Etapa::EsperandoJugadores(c) => {
            &&& g.jugadores.len() == cantidad_val(c)
            &&& forall|i: int|
                0 <= i < g.jugadores.len() ==> !comprometido(#[trigger] g.jugadores[i])
                    && !revelado(g.jugadores[i])
        },
        Etapa::Commit(c) => {
            &&& g.jugadores.len() == 2
            &&& comprometidos_2(g.jugadores) == cantidad_val(c)
            &&& !revelado(g.jugadores[0]) && !revelado(g.jugadores[1])
        },
        Etapa::Reveal(c) => {
            &&& g.jugadores.len() == 2
            &&& comprometido(g.jugadores[0]) && comprometido(g.jugadores[1])
            &&& revelados_2(g.jugadores) == cantidad_val(c)
        },
        Etapa::Fin => {
            &&& g.jugadores.len() == 2
            &&& comprometido(g.jugadores[0]) && comprometido(g.jugadores[1])
            &&& revelado(g.jugadores[0]) && revelado(g.jugadores[1])
        },
    }
}

/// Which error `registrar` returns, if any.
pub open spec fn err_registrar(g: JuegoV, quien: Cuenta) -> Option<Error> {
    if !(g.etapa is EsperandoJugadores) {
        Some(Error::EtapaIncorrecta)
    } else {
        err_registro(g.jugadores, quien)
    }
}

/// Which error `commit` returns, if any.
pub open spec fn err_commit(g: JuegoV, quien: Cuenta) -> Option<Error> {
    if !(g.etapa is Commit) {
        Some(Error::EtapaIncorrecta)
    } else if !en_lista(g.jugadores, quien) {
        Some(Error::NoEsJugador)
    } else if comprometido(g.jugadores[indice_de(g.jugadores, quien)]) {
        Some(Error::YaComprometido)
    } else {
        None
    }
}

/// Which error `reveal` returns, if any: the reveal succeeds exactly when the
/// recomputed commitment of the revealed move and nonce equals the stored one.
pub open spec fn err_revelar(g: JuegoV, quien: Cuenta, jugada: Jugada, nonce: u128) -> Option<
    Error,
> {
    if !(g.etapa is Reveal) {
        Some(Error::EtapaIncorrecta)
    } else if !en_lista(g.jugadores, quien) {
        Some(Error::NoEsJugador)
    } else {
        let j = g.jugadores[indice_de(g.jugadores, quien)];
        if revelado(j) {
            Some(Error::YaRevelado)
        } else if j.compromiso != Some(compromiso_de(jugada, nonce)) {
            Some(Error::HashIncorrecto)
        } else {
            None
        }
    }
}

/// Which error `finalizar_juego` returns, if any.
pub open spec fn err_finalizar(g: JuegoV) -> Option<Error> {
    if !(g.etapa is Fin) {
        Some(Error::EtapaIncorrecta)
    } else {
        None
    }
}

/// The finished game's winner, resolved over the two revealed moves in
/// roster order; `None` on a tie.
pub open spec fn ganador_de(g: JuegoV) -> Option<Cuenta>
    recommends
        invariante(g),
        g.etapa is Fin,
{
    match resultado_de(g.jugadores[0].jugada->0, g.jugadores[1].jugada->0) {
        Resultado::GanaPrimero => Some(g.jugadores[0].cuenta),
        Resultado::GanaSegundo => Some(g.jugadores[1].cuenta),
        Resultado::Empate => None,
    }
}

/// One game instance: the current stage and the roster, owned together and
/// mutated only by the four actions.
pub struct Juego {
    etapa: Etapa,
    jugadores: Jugadores,
}

impl View for Juego {
    type V = JuegoV;

    closed spec fn view(&self) -> JuegoV {
        JuegoV { etapa: self.etapa, jugadores: self.jugadores@ }
    }
}

impl Juego {
    /// A fresh game, waiting for its first participant.
    pub fn nuevo() -> (r: Juego)
        ensures
            r@.etapa == Etapa::EsperandoJugadores(CantidadDeJugadores::Cero),
            r@.jugadores == Seq::<JugadorV>::empty(),
            invariante(r@),
    {
        Juego { etapa: Etapa::default(), jugadores: Jugadores::nuevo() }
    }

    /// The current stage.
    pub fn etapa(&self) -> (r: Etapa)
        ensures
            r == self@.etapa,
    {
        self.etapa
    }

    /// The roster.
    pub fn jugadores(&self) -> (r: &Jugadores)
        ensures
            r@ == self@.jugadores,
    {
        &self.jugadores
    }

    /// Register the calling identity. Legal only while waiting for players;
    /// on success a fresh slot is appended and the stage advances.
    pub fn registrar(&mut self, quien: Cuenta) -> (r: Result<Event, Error>)
        requires
            invariante(old(self)@),
        ensures
            invariante(final(self)@),
            match r {
                Err(e) => {
                    &&& Some(e) == err_registrar(old(self)@, quien)
                    &&& final(self)@ == old(self)@
                },
                Ok(ev) => {
                    &&& err_registrar(old(self)@, quien) is None
                    &&& final(self)@.etapa == etapa_siguiente(old(self)@.etapa)
                    &&& final(self)@.jugadores == old(self)@.jugadores.push(jugador_nuevo(quien))
                    &&& ev == Event::Registrado { quien }
                },
            },
    {
        match self.etapa {
            Etapa::EsperandoJugadores(_) => {},
            _ => {
                return Err(Error::EtapaIncorrecta);
            },
        }
        match self.jugadores.registrar(quien) {
            Err(e) => Err(e),
            Ok(()) => {
                self.etapa.next();
                Ok(Event::Registrado { quien })
            },
        }
    }

    /// Store the caller's commitment digest. Legal only in the commit stage,
    /// for a registered participant that has not committed yet; on success
    /// the slot is filled and the stage advances.
    pub fn commit(&mut self, quien: Cuenta, hash: Vec<u8>) -> (r: Result<Event, Error>)
        requires
            invariante(old(self)@),
        ensures
            invariante(final(self)@),
            match r {
                Err(e) => {
                    &&& Some(e) == err_commit(old(self)@, quien)
                    &&& final(self)@ == old(self)@
                },
                Ok(ev) => {
                    &&& err_commit(old(self)@, quien) is None
                    &&& final(self)@.etapa == etapa_siguiente(old(self)@.etapa)
                    &&& final(self)@.jugadores == old(self)@.jugadores.update(
                        indice_de(old(self)@.jugadores, quien),
                        JugadorV {
                            compromiso: Some(hash@),
                            ..old(self)@.jugadores[indice_de(old(self)@.jugadores, quien)]
                        },
                    )
                    &&& ev matches Event::Comprometido { quien: q, hash: h } && q == quien && h@
                        == hash@
                },
            },
    {
        match self.etapa {
            Etapa::Commit(_) => {},
            _ => {
                return Err(Error::EtapaIncorrecta);
            },
        }
        let i = match self.jugadores.busca(quien) {
            None => {
                return Err(Error::NoEsJugador);
            },
            Some(i) => i,
        };
        proof {
            lemma_indice_de(self@.jugadores, quien, i as int);
        }
        if self.jugadores.jugador(i).compromiso.is_some() {
            return Err(Error::YaComprometido);
        }
        let copia = copia_bytes(&hash);
        self.jugadores.pon_compromiso(i, hash);
        self.etapa.next();
        Ok(Event::Comprometido { quien, hash: copia })
    }

    /// Reveal the caller's move and nonce. Legal only in the reveal stage,
    /// for a registered participant that has not revealed yet and whose
    /// recomputed commitment matches the stored one; on success the move is
    /// stored and the stage advances.
    pub fn revelar(&mut self, quien: Cuenta, jugada: Jugada, nonce: u128) -> (r: Result<
        Event,
        Error,
    >)
        requires
            invariante(old(self)@),
        ensures
            invariante(final(self)@),
            match r {
                Err(e) => {
                    &&& Some(e) == err_revelar(old(self)@, quien, jugada, nonce)
                    &&& final(self)@ == old(self)@
                },
                Ok(ev) => {
                    &&& err_revelar(old(self)@, quien, jugada, nonce) is None
                    &&& final(self)@.etapa == etapa_siguiente(old(self)@.etapa)
                    &&& final(self)@.jugadores == old(self)@.jugadores.update(
                        indice_de(old(self)@.jugadores, quien),
                        JugadorV {
                            jugada: Some(jugada),
                            ..old(self)@.jugadores[indice_de(old(self)@.jugadores, quien)]
                        },
                    )
                    &&& ev matches Event::Revelado { quien: q, jugada: j } && q == quien && j
                        == jugada
                },
            },
    {
        match self.etapa {
            Etapa::Reveal(_) => {},
            _ => {
                return Err(Error::EtapaIncorrecta);
            },
        }
        let i = match self.jugadores.busca(quien) {
            None => {
                return Err(Error::NoEsJugador);
            },
            Some(i) => i,
        };
        proof {
            lemma_indice_de(self@.jugadores, quien, i as int);
        }
        let slot = self.jugadores.jugador(i);
        if slot.jugada.is_some() {
            return Err(Error::YaRevelado);
        }
        let coincide: bool = match &slot.compromiso {
            Some(h) => verificar(jugada, nonce, h),
            // Unreachable: in the reveal stage every slot is committed, and a
            // missing commitment could never match a recomputed digest.
            None => false,
        };
        if !coincide {
            return Err(Error::HashIncorrecto);
        }
        self.jugadores.pon_jugada(i, jugada);
        self.etapa.next();
        Ok(Event::Revelado { quien, jugada })
    }

    /// Resolve the finished game. Legal only in the terminal stage; pure and
    /// idempotent, it re-derives the same outcome on every call.
    pub fn finalizar_juego(&self) -> (r: Result<Event, Error>)
        requires
            invariante(self@),
        ensures
            match r {
                Err(e) => Some(e) == err_finalizar(self@),
                Ok(ev) => {
                    &&& err_finalizar(self@) is None
                    &&& ev matches Event::Fin { ganador } && ganador == ganador_de(self@)
                },
            },
    {
        match self.etapa {
            Etapa::Fin => {},
            _ => {
                return Err(Error::EtapaIncorrecta);
            },
        }
        let jugador_1 = self.jugadores.jugador(0);
        let jugador_2 = self.jugadores.jugador(1);
        let jugada_1 = jugador_1.jugada.unwrap();
        let jugada_2 = jugador_2.jugada.unwrap();
        let ganador = match resolver(jugada_1, jugada_2) {
            Resultado::GanaPrimero => Some(jugador_1.cuenta),
            Resultado::GanaSegundo => Some(jugador_2.cuenta),
            Resultado::Empate => None,
        };
        Ok(Event::Fin { ganador })
    }
}

/// An action attempted outside its legal stage always fails
/// `EtapaIncorrecta`, whatever its other arguments and whatever the roster.
pub proof fn lemma_etapa_incorrecta(g: JuegoV, quien: Cuenta, jugada: Jugada, nonce: u128)
    ensures
        !(g.etapa is EsperandoJugadores) ==> err_registrar(g, quien) == Some(
            Error::EtapaIncorrecta,
        ),
        !(g.etapa is Commit) ==> err_commit(g, quien) == Some(Error::EtapaIncorrecta),
        !(g.etapa is Reveal) ==> err_revelar(g, quien, jugada, nonce) == Some(
            Error::EtapaIncorrecta,
        ),
        !(g.etapa is Fin) ==> err_finalizar(g) == Some(Error::EtapaIncorrecta),
{
}

/// An identity that is not on the roster and attempts to commit or to reveal
/// in the action's legal stage always fails `NoEsJugador`.
pub proof fn lemma_no_es_jugador(g: JuegoV, quien: Cuenta, jugada: Jugada, nonce: u128)
    requires
        !en_lista(g.jugadores, quien),
    ensures
        g.etapa is Commit ==> err_commit(g, quien) == Some(Error::NoEsJugador),
        g.etapa is Reveal ==> err_revelar(g, quien, jugada, nonce) == Some(Error::NoEsJugador),
{
}

/// In the reveal stage, a participant that has not yet revealed succeeds
/// exactly when the recomputed commitment of the revealed move and nonce
/// equals the stored digest; one that has already revealed always fails
/// `YaRevelado`, so a move is set at most once.
pub proof fn lemma_revelar_compromiso(g: JuegoV, quien: Cuenta, jugada: Jugada, nonce: u128)
    requires
        invariante(g),
        g.etapa is Reveal,
        en_lista(g.jugadores, quien),
    ensures
        ({
            let j = g.jugadores[indice_de(g.jugadores, quien)];
            &&& !revelado(j) ==> (err_revelar(g, quien, jugada, nonce) is None <==> j.compromiso
                == Some(compromiso_de(jugada, nonce)))
            &&& revelado(j) ==> err_revelar(g, quien, jugada, nonce) == Some(Error::YaRevelado)
        }),
{
}

} // verus!
