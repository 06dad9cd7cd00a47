//! The player of the grid game and the rules of its moves.

use crate::casuale::{intero_tra, moneta};
use crate::game_space::{CampoGioco, Cella, Posizione, QUANTITA};
use vstd::prelude::*;

verus! {

/// The lowest strength that a new player can have.
pub const FORZA_MINIMA: i32 = 1;

/// The highest strength that a new player can have.
pub const FORZA_MASSIMA: i32 = 100;

/// The player: moves left, position, heading and strength.
#[derive(Debug)]
pub struct Player {
    /// The number of moves left.
    pub mosse: usize,
    /// Where the player stands.
    pub posizione: Posizione,
    /// Where the player is heading.
    pub direzione: Direzione,
    /// The player's strength.
    pub forza: i32,
}

/// The four directions of a move.
#[derive(Debug, Clone, Copy, PartialEq, Eq, Structural)]
pub enum Direzione {
    Su,
    Giu,
    Destra,
    Sinistra,
}

/// How a move ends.
#[derive(Debug, Clone, Copy, PartialEq, Eq, Structural)]
pub enum EsitoMossa {
    /// The player has no moves left and is still alive: the game is won, and
    /// nothing has changed.
    Vinto,
    /// The player's strength fell to zero or below: the game is lost.
    Perso,
    /// The game goes on.
    InCorso,
}

/// The direction that stands for a drawn number: 0 is up, 1 down, 2 right,
/// anything else left.
pub open spec fn direzione_di(estratto: u64) -> Direzione {
    if estratto == 0 {
        Direzione::Su
    } else if estratto == 1 {
        Direzione::Giu
    } else if estratto == 2 {
        Direzione::Destra
    } else {
        Direzione::Sinistra
    }
}

/// The opposite direction: where a player turns at a wall.
pub open spec fn opposta(direzione: Direzione) -> Direzione {
    match direzione {
        Direzione::Su => Direzione::Giu,
        Direzione::Giu => Direzione::Su,
        Direzione::Sinistra => Direzione::Destra,
        Direzione::Destra => Direzione::Sinistra,
    }
}

/// Where a step in direction `richiesta` leads on a board of side
/// `dimensione`, and the player's heading after it. A step that stays on the
/// board moves one cell and heads in the direction taken; at a wall the
/// player stays and reverses the heading it had.
pub open spec fn passo(
    posizione: Posizione,
    attuale: Direzione,
    richiesta: Direzione,
    dimensione: usize,
) -> (int, int, Direzione) {
    let r = posizione.riga as int;
    let c = posizione.colonna as int;
    match richiesta {
        Direzione::Su => if r > 0 {
            (r - 1, c, richiesta)
        } else {
            (r, c, opposta(attuale))
        },
        Direzione::Giu => if r < dimensione - 1 {
            (r + 1, c, richiesta)
        } else {
            (r, c, opposta(attuale))
        },
        Direzione::Sinistra => if c > 0 {
            (r, c - 1, richiesta)
        } else {
            (r, c, opposta(attuale))
        },
        Direzione::Destra => if c < dimensione - 1 {
            (r, c + 1, richiesta)
        } else {
            (r, c, opposta(attuale))
        },
    }
}

/// Where a move leads and the heading after it. A move that goes astray
/// leaves the player in place, heading in the drawn direction `casuale`;
/// otherwise the player takes a step in direction `richiesta`.
pub open spec fn arrivo(
    posizione: Posizione,
    attuale: Direzione,
    richiesta: Direzione,
    dimensione: usize,
    deviata: bool,
    casuale: Direzione,
) -> (int, int, Direzione) {
    if deviata {
        (posizione.riga as int, posizione.colonna as int, casuale)
    } else {
        passo(posizione, attuale, richiesta, dimensione)
    }
}

/// What stepping on a cell adds to the player's strength: a full portion of
/// food adds its amount, a full portion of poison takes it away, anything
/// else changes nothing.
pub open spec fn effetto(cella: Cella) -> int {
    match cella {
        Cella::Cibo(q) => if q == QUANTITA {
            QUANTITA as int
        } else {
            0
        },
        Cella::Veleno(q) => if q == QUANTITA {
            -(QUANTITA as int)
        } else {
            0
        },
        Cella::Vuota => 0,
    }
}

/// What a move does. `prima` and `campo_prima` are player and board before
/// the move in direction `richiesta`, `dopo` and `campo_dopo` after it;
/// `deviata` and `casuale` are what was drawn for the move.
///
/// A player with no moves left has won, and nothing changes. Otherwise the
/// move is spent, the player turns and steps as `arrivo` says, and the cell
/// reached is emptied after its content has acted on the player's strength. A
/// player whose strength is then zero or below has lost and stays where it
/// was; otherwise it stands on the cell reached, and the board records it.
pub open spec fn mossa(
    prima: Player,
    campo_prima: CampoGioco,
    dopo: Player,
    campo_dopo: CampoGioco,
    richiesta: Direzione,
    deviata: bool,
    casuale: Direzione,
    esito: EsitoMossa,
) -> bool {
    if prima.mosse == 0 {
        &&& esito == EsitoMossa::Vinto
        &&& dopo == prima
        &&& campo_dopo == campo_prima
    } else {
        let (r, c, direzione) = arrivo(
            prima.posizione,
            prima.direzione,
            richiesta,
            campo_prima.dimensione,
            deviata,
            casuale,
        );
        let forza = prima.forza_dopo(&campo_prima, r, c);
        let fermo = forza <= 0;
        &&& esito == if fermo {
            EsitoMossa::Perso
        } else {
            EsitoMossa::InCorso
        }
        &&& dopo.mosse == prima.mosse - 1
        &&& dopo.direzione == direzione
        &&& dopo.forza == forza
        &&& dopo.posizione.riga == if fermo {
            prima.posizione.riga as int
        } else {
            r
        }
        &&& dopo.posizione.colonna == if fermo {
            prima.posizione.colonna as int
        } else {
            c
        }
        &&& campo_dopo.player_position.riga == if fermo {
            campo_prima.player_position.riga as int
        } else {
            r
        }
        &&& campo_dopo.player_position.colonna == if fermo {
            campo_prima.player_position.colonna as int
        } else {
            c
        }
        &&& campo_dopo.dimensione == campo_prima.dimensione
        &&& campo_dopo.cella(r, c) == Cella::Vuota
        &&& forall|i: int, j: int|
            0 <= i < campo_prima.dimensione && 0 <= j < campo_prima.dimensione && !(i == r && j
                == c) ==> campo_dopo.cella(i, j) == campo_prima.cella(i, j)
    }
}

/// The direction that stands for a drawn number.
pub fn direzione_da(estratto: u64) -> (direzione: Direzione)
    ensures
        direzione == direzione_di(estratto),
{
    if estratto == 0 {
        Direzione::Su
    } else if estratto == 1 {
        Direzione::Giu
    } else if estratto == 2 {
        Direzione::Destra
    } else {
        Direzione::Sinistra
    }
}

/// The heading of a player that meets a wall: the opposite of `dir`.
pub fn wall(dir: &Direzione) -> (direzione: Direzione)
    ensures
        direzione == opposta(*dir),
{
    match dir {
        Direzione::Su => Direzione::Giu,
        Direzione::Giu => Direzione::Su,
        Direzione::Sinistra => Direzione::Destra,
        Direzione::Destra => Direzione::Sinistra,
    }
}

impl Player {
    /// A player for the given board with the given heading and strength. It
    /// stands where the board says and has one move for each cell.
    pub fn con(campo: &CampoGioco, direzione: Direzione, forza: i32) -> (player: Player)
        requires
            campo.dimensione * campo.dimensione <= usize::MAX,
        ensures
            player.posizione == campo.player_position,
            player.mosse == campo.dimensione * campo.dimensione,
            player.direzione == direzione,
            player.forza == forza,
    {
        Player {
            posizione: campo.player_position,
            direzione,
            forza,
            mosse: campo.dimensione * campo.dimensione,
        }
    }

    /// A player for the given board, with a heading and a strength drawn at
    /// random, the strength between `FORZA_MINIMA` and `FORZA_MASSIMA`.
    pub fn nuovo(campo: &CampoGioco) -> (player: Player)
        requires
            campo.dimensione * campo.dimensione <= usize::MAX,
        ensures
            player.posizione == campo.player_position,
            player.mosse == campo.dimensione * campo.dimensione,
            FORZA_MINIMA <= player.forza <= FORZA_MASSIMA,
    {
        let direzione = direzione_da(intero_tra(0, 3));
        let forza = intero_tra(FORZA_MINIMA as u64, FORZA_MASSIMA as u64);
        Self::con(campo, direzione, forza as i32)
    }

    /// Whether the player can make a move on the board: both are well formed
    /// and the player stands on the board.
    pub open spec fn in_campo(&self, gamespace: &CampoGioco) -> bool {
        &&& gamespace.ben_formato()
        &&& self.posizione.riga < gamespace.dimensione
        &&& self.posizione.colonna < gamespace.dimensione
    }

    /// The player's strength after a move to row `r`, column `c`.
    pub open spec fn forza_dopo(&self, gamespace: &CampoGioco, r: int, c: int) -> int {
        self.forza + effetto(gamespace.cella(r, c))
    }

    /// Makes a move in direction `direction`, given what was drawn for it:
    /// whether the move goes astray, and the direction that the player then
    /// turns to. What the move does is `mossa`.
    #[verifier::rlimit(80)]
    pub fn muovi_con(
        &mut self,
        gamespace: &mut CampoGioco,
        direction: Direzione,
        deviata: bool,
        casuale: Direzione,
    ) -> (esito: EsitoMossa)
        requires
            old(self).in_campo(old(gamespace)),
            old(self).mosse > 0 || old(self).forza > 0,
            ({
                let (r, c, _) = arrivo(
                    old(self).posizione,
                    old(self).direzione,
                    direction,
                    old(gamespace).dimensione,
                    deviata,
                    casuale,
                );
                i32::MIN <= old(self).forza_dopo(old(gamespace), r, c) <= i32::MAX
            }),
        ensures
            final(self).in_campo(final(gamespace)),
            mossa(
                *old(self),
                *old(gamespace),
                *final(self),
                *final(gamespace),
                direction,
                deviata,
                casuale,
                esito,
            ),
    {
        if self.mosse == 0 {
            return EsitoMossa::Vinto;
        }
        self.mosse -= 1;
        let mut row = self.posizione.riga;
        let mut column = self.posizione.colonna;
        if deviata {
            self.direzione = casuale;
        } else {
            match direction {
                Direzione::Su => {
                    if self.posizione.riga > 0 {
                        row = self.posizione.riga - 1;
                        self.direzione = Direzione::Su;
                    } else {
                        self.direzione = wall(&self.direzione);
                    }
                },
                Direzione::Giu => {
                    if self.posizione.riga < gamespace.dimensione - 1 {
                        row = self.posizione.riga + 1;
                        self.direzione = Direzione::Giu;
                    } else {
                        self.direzione = wall(&self.direzione);
                    }
                },
                Direzione::Sinistra => {
                    if self.posizione.colonna > 0 {
                        column = self.posizione.colonna - 1;
                        self.direzione = Direzione::Sinistra;
                    } else {
                        self.direzione = wall(&self.direzione);
                    }
                },
                Direzione::Destra => {
                    if self.posizione.colonna < gamespace.dimensione - 1 {
                        column = self.posizione.colonna + 1;
                        self.direzione = Direzione::Destra;
                    } else {
                        self.direzione = wall(&self.direzione);
                    }
                },
            }
        }
        match gamespace.leggi(row, column) {
            Cella::Cibo(q) => {
                if q == QUANTITA {
                    self.forza += 10;
                }
            },
            Cella::Veleno(q) => {
                if q == QUANTITA {
                    self.forza -= 10;
                }
            },
            Cella::Vuota => {},
        }
        gamespace.scrivi(row, column, Cella::Vuota);
        if self.forza <= 0 {
            return EsitoMossa::Perso;
        }
        self.posizione.riga = row;
        self.posizione.colonna = column;
        gamespace.player_position.riga = row;
        gamespace.player_position.colonna = column;
        EsitoMossa::InCorso
    }

    /// Makes a move in direction `direction`. A fair coin decides whether the
    /// move goes astray; if it does, the player's new heading is drawn among
    /// the four directions. The move is `mossa` for what was drawn.
    pub fn muovi(&mut self, gamespace: &mut CampoGioco, direction: Direzione) -> (esito:
        EsitoMossa)
        requires
            old(self).in_campo(old(gamespace)),
            old(self).mosse > 0 || old(self).forza > 0,
            i32::MIN + QUANTITA <= old(self).forza <= i32::MAX - QUANTITA,
        ensures
            final(self).in_campo(final(gamespace)),
            exists|deviata: bool, casuale: Direzione| #[trigger]
                mossa(
                    *old(self),
                    *old(gamespace),
                    *final(self),
                    *final(gamespace),
                    direction,
                    deviata,
                    casuale,
                    esito,
                ),
    {
        let deviata = moneta();
        let casuale = direzione_da(intero_tra(0, 3));
        self.muovi_con(gamespace, direction, deviata, casuale)
    }
}

} // verus!
