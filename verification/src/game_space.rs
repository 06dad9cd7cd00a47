//! The board of the grid game: a square of cells that hold nothing, food or
//! poison, and the position of the player on it.

use vstd::prelude::*;

verus! {

/// The amount of food or poison that a filled cell holds.
pub const QUANTITA: u32 = 10;

/// A position on the board.
#[derive(Debug, Clone, Copy)]
pub struct Posizione {
    /// The row.
    pub riga: usize,
    /// The column.
    pub colonna: usize,
}

/// What a cell of the board holds.
#[derive(Debug, Clone, Copy, PartialEq)]
pub enum Cella {
    /// Nothing.
    Vuota,
    /// Food, with its amount.
    Cibo(u32),
    /// Poison, with its amount.
    Veleno(u32),
}

/// The board: its side, its cells by row, and where the player stands.
#[derive(Debug)]
pub struct CampoGioco {
    /// The side of the board.
    pub dimensione: usize,
    /// The cells, row by row.
    pub celle: Vec<Vec<Cella>>,
    /// The player's position.
    pub player_position: Posizione,
}

/// A row of `n` empty cells.
pub open spec fn riga_vuota(n: nat) -> Seq<Cella> {
    Seq::new(n, |j: int| Cella::Vuota)
}

/// The symbol that stands for a cell in the board's text.
pub open spec fn simbolo(cella: Cella) -> char {
    match cella {
        Cella::Vuota => 'O',
        Cella::Cibo(_) => '$',
        Cella::Veleno(_) => '-',
    }
}

/// The text of the first `n` cells of row `i`: for each cell its symbol, or
/// `P` where the player stands, followed by a space.
pub open spec fn testo_riga(riga: Seq<Cella>, i: int, giocatore: Posizione, n: nat) -> Seq<char>
    decreases n,
{
    if n == 0 {
        Seq::empty()
    } else {
        let j = n - 1;
        testo_riga(riga, i, giocatore, j as nat).push(
            if i == giocatore.riga && j == giocatore.colonna {
                'P'
            } else {
                simbolo(riga[j])
            },
        ).push(' ')
    }
}

/// The text of the first `n` rows of a board: each row's cells, then a line
/// break.
pub open spec fn testo_campo(celle: Seq<Vec<Cella>>, giocatore: Posizione, n: nat) -> Seq<char>
    decreases n,
{
    if n == 0 {
        Seq::empty()
    } else {
        let i = n - 1;
        (testo_campo(celle, giocatore, i as nat) + testo_riga(
            celle[i]@,
            i,
            giocatore,
            celle[i]@.len(),
        )).push('\n')
    }
}

impl CampoGioco {
    /// A board is well formed when it is a square of side `dimensione` and
    /// the player stands on it.
    pub open spec fn ben_formato(&self) -> bool {
        &&& self.celle@.len() == self.dimensione
        &&& forall|i: int|
            0 <= i < self.celle@.len() ==> (#[trigger] self.celle@[i])@.len() == self.dimensione
        &&& self.player_position.riga < self.dimensione
        &&& self.player_position.colonna < self.dimensione
    }

    /// The cell at row `r`, column `c`.
    pub open spec fn cella(&self, r: int, c: int) -> Cella {
        self.celle@[r]@[c]
    }

    /// A board of the given side with every cell empty and the player at
    /// `giocatore`.
    pub fn vuoto(dimensione: usize, giocatore: Posizione) -> (campo: CampoGioco)
        requires
            giocatore.riga < dimensione,
            giocatore.colonna < dimensione,
        ensures
            campo.ben_formato(),
            campo.dimensione == dimensione,
            campo.player_position == giocatore,
            forall|r: int, c: int|
                0 <= r < dimensione && 0 <= c < dimensione ==> campo.cella(r, c) == Cella::Vuota,
    {
        let mut celle: Vec<Vec<Cella>> = Vec::new();
        let mut i: usize = 0;
        while i < dimensione
            invariant
                i <= dimensione,
                celle@.len() == i,
                forall|r: int|
                    0 <= r < i ==> (#[trigger] celle@[r])@ == riga_vuota(dimensione as nat),
            decreases dimensione - i,
        {
            let mut riga: Vec<Cella> = Vec::new();
            let mut j: usize = 0;
            while j < dimensione
                invariant
                    j <= dimensione,
                    riga@ == riga_vuota(j as nat),
                decreases dimensione - j,
            {
                riga.push(Cella::Vuota);
                j += 1;
            }
            celle.push(riga);
            i += 1;
        }
        CampoGioco { dimensione, celle, player_position: giocatore }
    }

    /// Whether a drawn position can take the next object: it must differ from
    /// the position drawn before it and from the player's.
    pub fn posizione_ammessa(
        candidata: (usize, usize),
        precedente: (usize, usize),
        p_pos: (usize, usize),
    ) -> (ammessa: bool)
        ensures
            ammessa == (candidata != precedente && candidata != p_pos),
    {
        !(candidata.0 == precedente.0 && candidata.1 == precedente.1) && !(candidata.0 == p_pos.0
            && candidata.1 == p_pos.1)
    }

    /// Puts food, or poison if `cibo` is false, on the cell at `posizione`,
    /// in the amount `QUANTITA`. Whatever the cell held is replaced.
    pub fn posiziona(&mut self, posizione: (usize, usize), cibo: bool)
        requires
            old(self).ben_formato(),
            posizione.0 < old(self).dimensione,
            posizione.1 < old(self).dimensione,
        ensures
            final(self).ben_formato(),
            final(self).dimensione == old(self).dimensione,
            final(self).player_position == old(self).player_position,
            forall|r: int, c: int|
                0 <= r < old(self).dimensione && 0 <= c < old(self).dimensione
                    ==> final(self).cella(r, c) == if r == posizione.0 && c == posizione.1 {
                    if cibo {
                        Cella::Cibo(QUANTITA)
                    } else {
                        Cella::Veleno(QUANTITA)
                    }
                } else {
                    old(self).cella(r, c)
                },
    {
        let oggetto = if cibo {
            Cella::Cibo(QUANTITA)
        } else {
            Cella::Veleno(QUANTITA)
        };
        self.scrivi(posizione.0, posizione.1, oggetto);
    }

    /// Replaces the content of the cell at row `r`, column `c`.
    pub fn scrivi(&mut self, r: usize, c: usize, cella: Cella)
        requires
            old(self).ben_formato(),
            r < old(self).dimensione,
            c < old(self).dimensione,
        ensures
            final(self).ben_formato(),
            final(self).dimensione == old(self).dimensione,
            final(self).player_position == old(self).player_position,
            final(self).cella(r as int, c as int) == cella,
            forall|i: int, j: int|
                0 <= i < old(self).dimensione && 0 <= j < old(self).dimensione && !(i == r && j
                    == c) ==> final(self).cella(i, j) == old(self).cella(i, j),
    {
        assert(self.celle@[r as int]@.len() == self.dimensione);
        self.celle[r][c] = cella;
    }

    /// The content of the cell at row `r`, column `c`.
    pub fn leggi(&self, r: usize, c: usize) -> (cella: Cella)
        requires
            self.ben_formato(),
            r < self.dimensione,
            c < self.dimensione,
        ensures
            cella == self.cella(r as int, c as int),
    {
        assert(self.celle@[r as int]@.len() == self.dimensione);
        self.celle[r][c]
    }

    /// The board as text, one line per row: `O` for an empty cell, `$` for
    /// food, `-` for poison and `P` for the player, each followed by a space.
    pub fn descrizione(&self) -> (testo: String)
        ensures
            testo@ == testo_campo(self.celle@, self.player_position, self.celle@.len()),
    {
        proof {
            reveal_strlit("P ");
            reveal_strlit("O ");
            reveal_strlit("$ ");
            reveal_strlit("- ");
            reveal_strlit("\n");
        }
        let mut testo = String::new();
        let mut i: usize = 0;
        while i < self.celle.len()
            invariant
                i <= self.celle@.len(),
                testo@ == testo_campo(self.celle@, self.player_position, i as nat),
                "P "@ == seq!['P', ' '],
                "O "@ == seq!['O', ' '],
                "$ "@ == seq!['$', ' '],
                "- "@ == seq!['-', ' '],
                "\n"@ == seq!['\n'],
            decreases self.celle@.len() - i,
        {
            let riga = &self.celle[i];
            let ghost inizio = testo@;
            let mut j: usize = 0;
            while j < riga.len()
                invariant
                    j <= riga@.len(),
                    testo@ == inizio + testo_riga(riga@, i as int, self.player_position, j as nat),
                    "P "@ == seq!['P', ' '],
                    "O "@ == seq!['O', ' '],
                    "$ "@ == seq!['$', ' '],
                    "- "@ == seq!['-', ' '],
                decreases riga@.len() - j,
            {
                let ghost prima = testo_riga(riga@, i as int, self.player_position, j as nat);
                let pezzo = if i == self.player_position.riga && j
                    == self.player_position.colonna {
                    "P "
                } else {
                    match riga[j] {
                        Cella::Vuota => "O ",
                        Cella::Cibo(_) => "$ ",
                        Cella::Veleno(_) => "- ",
                    }
                };
                testo.append(pezzo);
                assert(testo@ == inizio + prima.push(pezzo@[0]).push(' '));
                j += 1;
            }
            testo.append("\n");
            assert(testo@ == (inizio + testo_riga(
                riga@,
                i as int,
                self.player_position,
                riga@.len(),
            )).push('\n'));
            i += 1;
        }
        testo
    }
}

} // verus!
