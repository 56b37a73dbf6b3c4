//! The protocol's plain data: player count, stage, move, outcome and error,
//! together with the stage progression and the move resolution table.

use vstd::prelude::*;

verus! {

/// Sub-count of participants that have completed the current stage's action.
#[derive(Clone, Copy, PartialEq, Eq, Structural, Debug)]
pub enum CantidadDeJugadores {
    Cero,
    Uno,
}

/// The major phase of the protocol, with its sub-count. The game advances
/// through exactly seven reachable values; `Fin` is absorbing.
#[derive(Clone, Copy, PartialEq, Eq, Structural, Debug)]
pub enum Etapa {
    EsperandoJugadores(CantidadDeJugadores),
    Commit(CantidadDeJugadores),
    Reveal(CantidadDeJugadores),
    Fin,
}

/// A move of the game.
#[derive(Clone, Copy, PartialEq, Eq, Structural, Debug)]
pub enum Jugada {
    Piedra,
    Papel,
    Tijera,
}

/// Outcome of comparing the two revealed moves, in roster order: the
/// first-registered participant is the first move's owner.
#[derive(Clone, Copy, PartialEq, Eq, Structural, Debug)]
pub enum Resultado {
    GanaPrimero,
    GanaSegundo,
    Empate,
}

/// Every way an action can be rejected. A rejected action leaves the game
/// untouched.
#[derive(Clone, Copy, PartialEq, Eq, Structural, Debug)]
pub enum Error {
    /// The identity already registered for this game.
    YaRegistrado,
    /// The game already has two participants.
    JuegoLleno,
    /// The action is not legal in the current stage.
    EtapaIncorrecta,
    /// The participant already stored a commitment.
    YaComprometido,
    /// The caller is not a participant of this game.
    NoEsJugador,
    /// The participant already revealed a move.
    YaRevelado,
    /// The revealed move and nonce do not match the stored commitment.
    HashIncorrecto,
}

/// The numeric value of a sub-count.
pub open spec fn cantidad_val(c: CantidadDeJugadores) -> int {
    match c {
        CantidadDeJugadores::Cero => 0,
        CantidadDeJugadores::Uno => 1,
    }
}

/// The single legal successor of each stage.
pub open spec fn etapa_siguiente(e: Etapa) -> Etapa {
    match e {
        Etapa::EsperandoJugadores(CantidadDeJugadores::Cero) =>
            Etapa::EsperandoJugadores(CantidadDeJugadores::Uno),
        Etapa::EsperandoJugadores(CantidadDeJugadores::Uno) =>
            Etapa::Commit(CantidadDeJugadores::Cero),
        Etapa::Commit(CantidadDeJugadores::Cero) => Etapa::Commit(CantidadDeJugadores::Uno),
        Etapa::Commit(CantidadDeJugadores::Uno) => Etapa::Reveal(CantidadDeJugadores::Cero),
        Etapa::Reveal(CantidadDeJugadores::Cero) => Etapa::Reveal(CantidadDeJugadores::Uno),
        Etapa::Reveal(CantidadDeJugadores::Uno) => Etapa::Fin,
        Etapa::Fin => Etapa::Fin,
    }
}

impl Etapa {
    /// Advance to the next stage; total, and a no-op on `Fin`.
    pub fn next(&mut self)
        ensures
            *final(self) == etapa_siguiente(*old(self)),
    {
        *self = match *self {
            Etapa::EsperandoJugadores(CantidadDeJugadores::Cero) =>
                Etapa::EsperandoJugadores(CantidadDeJugadores::Uno),
            Etapa::EsperandoJugadores(CantidadDeJugadores::Uno) =>
                Etapa::Commit(CantidadDeJugadores::Cero),
            Etapa::Commit(CantidadDeJugadores::Cero) => Etapa::Commit(CantidadDeJugadores::Uno),
            Etapa::Commit(CantidadDeJugadores::Uno) => Etapa::Reveal(CantidadDeJugadores::Cero),
            Etapa::Reveal(CantidadDeJugadores::Cero) => Etapa::Reveal(CantidadDeJugadores::Uno),
            Etapa::Reveal(CantidadDeJugadores::Uno) => Etapa::Fin,
            Etapa::Fin => Etapa::Fin,
        };
    }
}

impl Default for Etapa {
    /// A fresh game waits for its first participant.
    fn default() -> (r: Etapa)
        ensures
            r == Etapa::EsperandoJugadores(CantidadDeJugadores::Cero),
    {
        Etapa::EsperandoJugadores(CantidadDeJugadores::Cero)
    }
}

/// The cyclic dominance relation: paper beats rock, rock beats scissors,
/// scissors beats paper.
pub open spec fn gana(a: Jugada, b: Jugada) -> bool {
    ||| (a == Jugada::Papel && b == Jugada::Piedra)
    ||| (a == Jugada::Piedra && b == Jugada::Tijera)
    ||| (a == Jugada::Tijera && b == Jugada::Papel)
}

/// The outcome of a pair of moves: a win for whichever side dominates the
/// other, a tie otherwise.
pub open spec fn resultado_de(a: Jugada, b: Jugada) -> Resultado {
    if gana(a, b) {
        Resultado::GanaPrimero
    } else if gana(b, a) {
        Resultado::GanaSegundo
    } else {
        Resultado::Empate
    }
}

/// Map a pair of revealed moves to the round's outcome.
pub fn resolver(a: Jugada, b: Jugada) -> (r: Resultado)
    ensures
        r == resultado_de(a, b),
{
    match (a, b) {
        (Jugada::Papel, Jugada::Piedra)
        | (Jugada::Piedra, Jugada::Tijera)
        | (Jugada::Tijera, Jugada::Papel) => Resultado::GanaPrimero,
        (Jugada::Piedra, Jugada::Papel)
        | (Jugada::Tijera, Jugada::Piedra)
        | (Jugada::Papel, Jugada::Tijera) => Resultado::GanaSegundo,
        _ => Resultado::Empate,
    }
}

/// The resolution table is total and exhaustive over the nine ordered pairs
/// of moves: a tie exactly on equal moves, and otherwise exactly one side
/// wins, the one whose move dominates under paper > rock, rock > scissors,
/// scissors > paper.
pub proof fn lemma_resolver_exhaustivo(a: Jugada, b: Jugada)
    ensures
        resultado_de(a, b) == Resultado::Empate <==> a == b,
        resultado_de(a, b) == Resultado::GanaPrimero <==> gana(a, b),
        resultado_de(a, b) == Resultado::GanaSegundo <==> gana(b, a),
        !(gana(a, b) && gana(b, a)),
{
}

} // verus!
