//! The sixteen-point compass rose used for wind directions.

use vstd::prelude::*;
use vstd::string::*;

verus! {

/// A wind direction on the sixteen-point compass rose.
#[derive(Debug, Clone, Copy, PartialEq, Eq, Structural)]
pub enum Winddir16Point {
    N,
    NNE,
    NE,
    ENE,
    E,
    ESE,
    SE,
    SSE,
    S,
    SSW,
    SW,
    WSW,
    W,
    WNW,
    NW,
    NNW,
}

impl Winddir16Point {
    /// The arrow that stands for this direction. Each cardinal point has an
    /// arrow of its own; the three points between two cardinal points share
    /// the diagonal arrow.
    pub open spec fn arrow(self) -> char {
        match self {
            Winddir16Point::N => '↑',
            Winddir16Point::NNE | Winddir16Point::NE | Winddir16Point::ENE => '↗',
            Winddir16Point::E => '→',
            Winddir16Point::ESE | Winddir16Point::SE | Winddir16Point::SSE => '↘',
            Winddir16Point::S => '↓',
            Winddir16Point::SSW | Winddir16Point::SW | Winddir16Point::WSW => '↙',
            Winddir16Point::W => '←',
            Winddir16Point::WNW | Winddir16Point::NW | Winddir16Point::NNW => '↖',
        }
    }

    /// The name of this direction: the letters of the variant.
    pub open spec fn name(self) -> Seq<char> {
        match self {
            Winddir16Point::N => seq!['N'],
            Winddir16Point::NNE => seq!['N', 'N', 'E'],
            Winddir16Point::NE => seq!['N', 'E'],
            Winddir16Point::ENE => seq!['E', 'N', 'E'],
            Winddir16Point::E => seq!['E'],
            Winddir16Point::ESE => seq!['E', 'S', 'E'],
            Winddir16Point::SE => seq!['S', 'E'],
            Winddir16Point::SSE => seq!['S', 'S', 'E'],
            Winddir16Point::S => seq!['S'],
            Winddir16Point::SSW => seq!['S', 'S', 'W'],
            Winddir16Point::SW => seq!['S', 'W'],
            Winddir16Point::WSW => seq!['W', 'S', 'W'],
            Winddir16Point::W => seq!['W'],
            Winddir16Point::WNW => seq!['W', 'N', 'W'],
            Winddir16Point::NW => seq!['N', 'W'],
            Winddir16Point::NNW => seq!['N', 'N', 'W'],
        }
    }

    /// The direction with the given name, if there is one.
    pub open spec fn named(name: Seq<char>) -> Option<Winddir16Point> {
        if exists|point: Winddir16Point| point.name() == name {
            Some(choose|point: Winddir16Point| point.name() == name)
        } else {
            None
        }
    }

    /// The name as a string literal.
    fn label(&self) -> (label: &'static str)
        ensures
            label@ == self.name(),
    {
        proof {
            reveal_strlit("N");
            reveal_strlit("NNE");
            reveal_strlit("NE");
            reveal_strlit("ENE");
            reveal_strlit("E");
            reveal_strlit("ESE");
            reveal_strlit("SE");
            reveal_strlit("SSE");
            reveal_strlit("S");
            reveal_strlit("SSW");
            reveal_strlit("SW");
            reveal_strlit("WSW");
            reveal_strlit("W");
            reveal_strlit("WNW");
            reveal_strlit("NW");
            reveal_strlit("NNW");
        }
        match self {
            Winddir16Point::N => "N",
            Winddir16Point::NNE => "NNE",
            Winddir16Point::NE => "NE",
            Winddir16Point::ENE => "ENE",
            Winddir16Point::E => "E",
            Winddir16Point::ESE => "ESE",
            Winddir16Point::SE => "SE",
            Winddir16Point::SSE => "SSE",
            Winddir16Point::S => "S",
            Winddir16Point::SSW => "SSW",
            Winddir16Point::SW => "SW",
            Winddir16Point::WSW => "WSW",
            Winddir16Point::W => "W",
            Winddir16Point::WNW => "WNW",
            Winddir16Point::NW => "NW",
            Winddir16Point::NNW => "NNW",
        }
    }

    /// The direction as a one-glyph string.
    pub fn into_symbol(&self) -> (symbol: String)
        ensures
            symbol@ == seq![self.arrow()],
    {
        proof {
            reveal_strlit("↑");
            reveal_strlit("↗");
            reveal_strlit("→");
            reveal_strlit("↘");
            reveal_strlit("↓");
            reveal_strlit("↙");
            reveal_strlit("←");
            reveal_strlit("↖");
        }
        let glyph: &str = match self {
            Winddir16Point::N => "↑",
            Winddir16Point::NNE | Winddir16Point::NE | Winddir16Point::ENE => "↗",
            Winddir16Point::E => "→",
            Winddir16Point::ESE | Winddir16Point::SE | Winddir16Point::SSE => "↘",
            Winddir16Point::S => "↓",
            Winddir16Point::SSW | Winddir16Point::SW | Winddir16Point::WSW => "↙",
            Winddir16Point::W => "←",
            Winddir16Point::WNW | Winddir16Point::NW | Winddir16Point::NNW => "↖",
        };
        String::from_str(glyph)
    }

    /// The direction's name as a string.
    pub fn into_text(&self) -> (text: String)
        ensures
            text@ == self.name(),
    {
        String::from_str(self.label())
    }

    /// Every direction, clockwise from north.
    pub open spec fn rose() -> Seq<Winddir16Point> {
        seq![
            Winddir16Point::N,
            Winddir16Point::NNE,
            Winddir16Point::NE,
            Winddir16Point::ENE,
            Winddir16Point::E,
            Winddir16Point::ESE,
            Winddir16Point::SE,
            Winddir16Point::SSE,
            Winddir16Point::S,
            Winddir16Point::SSW,
            Winddir16Point::SW,
            Winddir16Point::WSW,
            Winddir16Point::W,
            Winddir16Point::WNW,
            Winddir16Point::NW,
            Winddir16Point::NNW,
        ]
    }

    /// Every direction, clockwise from north.
    pub fn all() -> (points: [Winddir16Point; 16])
        ensures
            points@ == Winddir16Point::rose(),
    {
        [
            Winddir16Point::N,
            Winddir16Point::NNE,
            Winddir16Point::NE,
            Winddir16Point::ENE,
            Winddir16Point::E,
            Winddir16Point::ESE,
            Winddir16Point::SE,
            Winddir16Point::SSE,
            Winddir16Point::S,
            Winddir16Point::SSW,
            Winddir16Point::SW,
            Winddir16Point::WSW,
            Winddir16Point::W,
            Winddir16Point::WNW,
            Winddir16Point::NW,
            Winddir16Point::NNW,
        ]
    }

    /// Finds the direction with the given name. Names are matched exactly:
    /// upper case, no surrounding space.
    pub fn from_text(text: &str) -> (found: Option<Winddir16Point>)
        ensures
            match found {
                Some(point) => point.name() == text@,
                None => forall|point: Winddir16Point| point.name() != text@,
            },
            found == Winddir16Point::named(text@),
    {
        let wanted = String::from_str(text);
        let points = Winddir16Point::all();
        let mut i: usize = 0;
        while i < 16
            invariant
                i <= 16,
                wanted@ == text@,
                points@ == Winddir16Point::rose(),
                forall|j: int| 0 <= j < i ==> points@[j].name() != text@,
            decreases 16 - i,
        {
            let point = points[i];
            if wanted == String::from_str(point.label()) {
                proof {
                    lemma_name_finds_its_point(point);
                }
                return Some(point);
            }
            i += 1;
        }
        assert forall|point: Winddir16Point| point.name() != text@ by {
            lemma_rose_is_complete(point);
        }
        None
    }
}

/// The rose holds every direction.
pub proof fn lemma_rose_is_complete(point: Winddir16Point)
    ensures
        Winddir16Point::rose().contains(point),
{
    let i: int = match point {
        Winddir16Point::N => 0,
        Winddir16Point::NNE => 1,
        Winddir16Point::NE => 2,
        Winddir16Point::ENE => 3,
        Winddir16Point::E => 4,
        Winddir16Point::ESE => 5,
        Winddir16Point::SE => 6,
        Winddir16Point::SSE => 7,
        Winddir16Point::S => 8,
        Winddir16Point::SSW => 9,
        Winddir16Point::SW => 10,
        Winddir16Point::WSW => 11,
        Winddir16Point::W => 12,
        Winddir16Point::WNW => 13,
        Winddir16Point::NW => 14,
        Winddir16Point::NNW => 15,
    };
    assert(Winddir16Point::rose()[i] == point);
}

/// What tells two names apart: the length and the first three letters,
/// with a blank where the name is shorter.
spec fn shape(name: Seq<char>) -> (nat, char, char, char) {
    (
        name.len(),
        name[0],
        if name.len() > 1 {
            name[1]
        } else {
            ' '
        },
        if name.len() > 2 {
            name[2]
        } else {
            ' '
        },
    )
}

proof fn lemma_name_shape(p: Winddir16Point)
    ensures
        shape(p.name()) == match p {
            Winddir16Point::N => (1nat, 'N', ' ', ' '),
            Winddir16Point::NNE => (3nat, 'N', 'N', 'E'),
            Winddir16Point::NE => (2nat, 'N', 'E', ' '),
            Winddir16Point::ENE => (3nat, 'E', 'N', 'E'),
            Winddir16Point::E => (1nat, 'E', ' ', ' '),
            Winddir16Point::ESE => (3nat, 'E', 'S', 'E'),
            Winddir16Point::SE => (2nat, 'S', 'E', ' '),
            Winddir16Point::SSE => (3nat, 'S', 'S', 'E'),
            Winddir16Point::S => (1nat, 'S', ' ', ' '),
            Winddir16Point::SSW => (3nat, 'S', 'S', 'W'),
            Winddir16Point::SW => (2nat, 'S', 'W', ' '),
            Winddir16Point::WSW => (3nat, 'W', 'S', 'W'),
            Winddir16Point::W => (1nat, 'W', ' ', ' '),
            Winddir16Point::WNW => (3nat, 'W', 'N', 'W'),
            Winddir16Point::NW => (2nat, 'N', 'W', ' '),
            Winddir16Point::NNW => (3nat, 'N', 'N', 'W'),
        },
{
}

/// Two directions with the same name are the same direction, so a name
/// stands for at most one of them.
pub proof fn lemma_names_are_distinct(p: Winddir16Point, q: Winddir16Point)
    requires
        p.name() == q.name(),
    ensures
        p == q,
{
    lemma_name_shape(p);
    lemma_name_shape(q);
}

/// A direction is found by its own name.
pub proof fn lemma_name_finds_its_point(point: Winddir16Point)
    ensures
        Winddir16Point::named(point.name()) == Some(point),
{
    lemma_names_are_distinct(Winddir16Point::named(point.name())->0, point);
}

/// The arrow of every direction is one of the eight arrows of the
/// eight-point rose.
pub proof fn lemma_arrow_is_one_of_eight(p: Winddir16Point)
    ensures
        seq!['↑', '↗', '→', '↘', '↓', '↙', '←', '↖'].contains(p.arrow()),
{
    let arrows = seq!['↑', '↗', '→', '↘', '↓', '↙', '←', '↖'];
    let i: int = match p.arrow() {
        '↑' => 0,
        '↗' => 1,
        '→' => 2,
        '↘' => 3,
        '↓' => 4,
        '↙' => 5,
        '←' => 6,
        _ => 7,
    };
    assert(arrows[i] == p.arrow());
}

} // verus!
