//! Room locations at the Highfield and Fearnhill schools, and their
//! rendering into canonical textual identifiers.

use crate::ranged::RangedU8;
use vstd::prelude::*;

verus! {

/// The character for a single decimal digit.
pub open spec fn digit_char(d: int) -> char {
    if d == 0 {
        '0'
    } else if d == 1 {
        '1'
    } else if d == 2 {
        '2'
    } else if d == 3 {
        '3'
    } else if d == 4 {
        '4'
    } else if d == 5 {
        '5'
    } else if d == 6 {
        '6'
    } else if d == 7 {
        '7'
    } else if d == 8 {
        '8'
    } else {
        '9'
    }
}

/// Whether `c` is one of the ten decimal digit characters.
pub open spec fn is_digit_char(c: char) -> bool {
    c == '0' || c == '1' || c == '2' || c == '3' || c == '4' || c == '5' || c == '6' || c == '7'
        || c == '8' || c == '9'
}

/// The decimal rendering of `d`, right-aligned in a field of width two and
/// left-padded with '0': the rule for Highfield classroom discriminators.
pub open spec fn spec_padded_two(d: int) -> Seq<char> {
    seq![digit_char(d / 10), digit_char(d % 10)]
}

/// The plain decimal rendering of `d` (up to two digits, no padding): the
/// rule for Fearnhill classroom discriminators.
pub open spec fn spec_decimal(d: int) -> Seq<char> {
    if d < 10 {
        seq![digit_char(d)]
    } else {
        seq![digit_char(d / 10), digit_char(d % 10)]
    }
}

fn digit_str(d: u8) -> (r: &'static str)
    requires
        d <= 9,
    ensures
        r@ == seq![digit_char(d as int)],
{
    let r: &'static str = match d {
        0 => "0",
        1 => "1",
        2 => "2",
        3 => "3",
        4 => "4",
        5 => "5",
        6 => "6",
        7 => "7",
        8 => "8",
        _ => "9",
    };
    proof {
        reveal_strlit("0");
        reveal_strlit("1");
        reveal_strlit("2");
        reveal_strlit("3");
        reveal_strlit("4");
        reveal_strlit("5");
        reveal_strlit("6");
        reveal_strlit("7");
        reveal_strlit("8");
        reveal_strlit("9");
        assert(r@ =~= seq![digit_char(d as int)]);
    }
    r
}

fn render_padded_two(d: u8) -> (r: String)
    requires
        d <= 99,
    ensures
        r@ == spec_padded_two(d as int),
{
    let mut s = String::from_str(digit_str(d / 10));
    s.append(digit_str(d % 10));
    proof {
        assert(s@ =~= spec_padded_two(d as int));
    }
    s
}

fn render_decimal(d: u8) -> (r: String)
    requires
        d <= 99,
    ensures
        r@ == spec_decimal(d as int),
{
    if d < 10 {
        let s = String::from_str(digit_str(d));
        proof {
            assert(s@ =~= spec_decimal(d as int));
        }
        s
    } else {
        render_padded_two(d)
    }
}

/// A block at the Highfield school.
#[derive(Debug, Clone, Copy, PartialEq, Eq)]
pub enum HighfieldBlock {
    Howard,
    Parker,
    Unwin,
}

impl HighfieldBlock {
    /// The identifier of the block: a single letter.
    pub open spec fn spec_render(self) -> Seq<char> {
        match self {
            HighfieldBlock::Howard => "H"@,
            HighfieldBlock::Parker => "P"@,
            HighfieldBlock::Unwin => "U"@,
        }
    }

    /// Renders the block's identifier.
    pub fn render(&self) -> (r: String)
        ensures
            r@ == self.spec_render(),
    {
        match self {
            HighfieldBlock::Howard => String::from_str("H"),
            HighfieldBlock::Parker => String::from_str("P"),
            HighfieldBlock::Unwin => String::from_str("U"),
        }
    }
}

/// A floor of a [`HighfieldBlock`].
#[derive(Debug, Clone, Copy, PartialEq, Eq)]
pub enum HighfieldFloor {
    /// The ground floor of a block.
    Ground,
    /// An upper level of a block.
    ///
    /// The level lies in `1..=9`: with [`Self::Ground`] on offer there is no
    /// need for a level `0`, and the Highfield school will never have more
    /// than `9` levels.
    Level(RangedU8<1, 9>),
}

impl HighfieldFloor {
    /// The identifier of the floor: 'G' for the ground floor, the level's
    /// single digit for the others.
    pub open spec fn spec_render(self) -> Seq<char> {
        match self {
            HighfieldFloor::Ground => "G"@,
            HighfieldFloor::Level(level) => seq![digit_char(level.spec_get() as int)],
        }
    }

    /// Renders the floor's identifier.
    pub fn render(&self) -> (r: String)
        ensures
            r@ == self.spec_render(),
    {
        match self {
            HighfieldFloor::Ground => String::from_str("G"),
            HighfieldFloor::Level(level) => String::from_str(digit_str(level.get())),
        }
    }
}

/// A room at the Highfield school.
///
/// The set of rooms is open: an exhaustive list of Highfield's rooms has not
/// been obtained, and new rooms could be created, so new variants may be
/// added without that being a breaking change.
#[derive(Debug, Clone, Copy, PartialEq, Eq)]
#[non_exhaustive]
pub enum HighfieldRoom {
    /// The hall at Highfield (in which assemblies can be held).
    Hall,
    /// The sports hall (generally used for P.E.).
    SportsHall,
    /// A classroom at the Highfield school.
    Classroom {
        /// The block in which the room is located.
        block: HighfieldBlock,
        /// The floor on which the room is located.
        floor: HighfieldFloor,
        /// The discriminator of the room.
        ///
        /// This gives each room a unique identity: without it, two rooms on
        /// the same floor of the same block could not be told apart.
        discriminator: RangedU8<1, 99>,
    },
}

impl HighfieldRoom {
    /// The room's identifier. A classroom concatenates its block letter, its
    /// floor character and its discriminator zero-padded to two digits.
    pub open spec fn spec_render(self) -> Seq<char> {
        match self {
            HighfieldRoom::Hall => "Hall"@,
            HighfieldRoom::SportsHall => "Sports Hall"@,
            HighfieldRoom::Classroom { block, floor, discriminator } => block.spec_render()
                + floor.spec_render() + spec_padded_two(discriminator.spec_get() as int),
        }
    }

    /// Renders the room's identifier.
    pub fn render(&self) -> (r: String)
        ensures
            r@ == self.spec_render(),
    {
        match self {
            HighfieldRoom::Hall => String::from_str("Hall"),
            HighfieldRoom::SportsHall => String::from_str("Sports Hall"),
            HighfieldRoom::Classroom { block, floor, discriminator } => {
                let mut s = block.render();
                let floor_part = floor.render();
                s.append(floor_part.as_str());
                let discriminator_part = render_padded_two(discriminator.get());
                s.append(discriminator_part.as_str());
                proof {
                    assert(s@ =~= self.spec_render());
                }
                s
            },
        }
    }
}

/// A section at the Fearnhill school.
#[derive(Debug, Clone, Copy, PartialEq, Eq)]
pub enum FearnhillSection {
    Science,
    Business,
    PSHE,
    Languages,
    Technology,
    Mathematics,
    English,
    Music,
    Humanities,
    IT,
}

impl FearnhillSection {
    /// The code of the section: one or two letters. The codes are not all
    /// single letters: Music uses "Mu" to keep it apart from Mathematics.
    pub open spec fn spec_render(self) -> Seq<char> {
        match self {
            FearnhillSection::Science => "S"@,
            FearnhillSection::Business => "B"@,
            FearnhillSection::PSHE => "P"@,
            FearnhillSection::Languages => "L"@,
            FearnhillSection::Technology => "T"@,
            FearnhillSection::Mathematics => "M"@,
            FearnhillSection::English => "E"@,
            FearnhillSection::Music => "Mu"@,
            FearnhillSection::Humanities => "H"@,
            FearnhillSection::IT => "I"@,
        }
    }

    /// Renders the section's code.
    pub fn render(&self) -> (r: String)
        ensures
            r@ == self.spec_render(),
    {
        match self {
            FearnhillSection::Science => String::from_str("S"),
            FearnhillSection::Business => String::from_str("B"),
            FearnhillSection::PSHE => String::from_str("P"),
            FearnhillSection::Languages => String::from_str("L"),
            FearnhillSection::Technology => String::from_str("T"),
            FearnhillSection::Mathematics => String::from_str("M"),
            FearnhillSection::English => String::from_str("E"),
            FearnhillSection::Music => String::from_str("Mu"),
            FearnhillSection::Humanities => String::from_str("H"),
            FearnhillSection::IT => String::from_str("I"),
        }
    }
}

/// A room at the Fearnhill school.
///
/// The set of rooms is open: an exhaustive list of Fearnhill's rooms has not
/// been obtained, and Fearnhill may add rooms at any time, so new variants
/// may be added without that being a breaking change.
#[derive(Debug, Clone, Copy, PartialEq, Eq)]
#[non_exhaustive]
pub enum FearnhillRoom {
    /// The sports hall at Fearnhill (primarily used for P.E.).
    SportsHall,
    /// The gym at Fearnhill (primarily used for P.E.).
    Gym,
    /// The dance studio at Fearnhill.
    DanceStudio,
    /// The drama studio at Fearnhill.
    DramaStudio,
    /// A classroom at Fearnhill.
    Classroom {
        /// The section in which the classroom is located.
        section: FearnhillSection,
        /// The discriminator of the classroom.
        ///
        /// This assigns each classroom a unique identity, so that two
        /// classrooms in the same section have different identifiers.
        discriminator: RangedU8<1, 99>,
    },
}

impl FearnhillRoom {
    /// The room's identifier. A classroom concatenates its section code and
    /// its discriminator in plain decimal: unlike at Highfield, there is no
    /// zero-padding, a deliberate per-school difference.
    pub open spec fn spec_render(self) -> Seq<char> {
        match self {
            FearnhillRoom::SportsHall => "Sports Hall"@,
            FearnhillRoom::Gym => "Gym"@,
            FearnhillRoom::DanceStudio => "Dance Studio"@,
            FearnhillRoom::DramaStudio => "Drama Studio"@,
            FearnhillRoom::Classroom { section, discriminator } => section.spec_render()
                + spec_decimal(discriminator.spec_get() as int),
        }
    }

    /// Renders the room's identifier.
    pub fn render(&self) -> (r: String)
        ensures
            r@ == self.spec_render(),
    {
        match self {
            FearnhillRoom::SportsHall => String::from_str("Sports Hall"),
            FearnhillRoom::Gym => String::from_str("Gym"),
            FearnhillRoom::DanceStudio => String::from_str("Dance Studio"),
            FearnhillRoom::DramaStudio => String::from_str("Drama Studio"),
            FearnhillRoom::Classroom { section, discriminator } => {
                let mut s = section.render();
                let discriminator_part = render_decimal(discriminator.get());
                s.append(discriminator_part.as_str());
                s
            },
        }
    }
}

/// The location of a room (in which a lesson can take place) at either the
/// Highfield school or the Fearnhill school.
#[derive(Debug, Clone, Copy, PartialEq, Eq)]
pub enum Location {
    /// The location of a room at the Highfield school.
    Highfield(HighfieldRoom),
    /// The location of a room at the Fearnhill school.
    Fearnhill(FearnhillRoom),
}

impl Location {
    /// The location's identifier. A Highfield room renders verbatim; a
    /// Fearnhill room takes the prefix "FH ", since both schools have a
    /// "Sports Hall" and the two must never collide textually.
    pub open spec fn spec_render(self) -> Seq<char> {
        match self {
            Location::Highfield(room) => room.spec_render(),
            Location::Fearnhill(room) => "FH "@ + room.spec_render(),
        }
    }

    /// Renders the location's identifier.
    pub fn render(&self) -> (r: String)
        ensures
            r@ == self.spec_render(),
    {
        match self {
            Location::Highfield(room) => room.render(),
            Location::Fearnhill(room) => {
                let mut s = String::from_str("FH ");
                let room_part = room.render();
                s.append(room_part.as_str());
                s
            },
        }
    }
}

/// Rendering is deterministic and pure: the identifier is a function of the
/// value alone, so equal locations always render to identical strings.
pub proof fn lemma_render_deterministic(a: Location, b: Location)
    requires
        a == b,
    ensures
        a.spec_render() == b.spec_render(),
{
}

/// The two schools' sports halls never collide textually: the "FH " prefix
/// keeps Fearnhill's rendered identifier distinct from Highfield's.
pub proof fn lemma_sports_halls_distinct()
    ensures
        Location::Highfield(HighfieldRoom::SportsHall).spec_render()
            != Location::Fearnhill(FearnhillRoom::SportsHall).spec_render(),
{
    reveal_strlit("FH ");
    reveal_strlit("Sports Hall");
    assert(Location::Highfield(HighfieldRoom::SportsHall).spec_render().len() == 11);
    assert(Location::Fearnhill(FearnhillRoom::SportsHall).spec_render().len() == 14);
}

/// A Highfield classroom's discriminator always renders as exactly two digit
/// characters, zero-padded, for every value in `1..=99`.
pub proof fn lemma_highfield_discriminator_two_digits(
    block: HighfieldBlock,
    floor: HighfieldFloor,
    discriminator: RangedU8<1, 99>,
)
    requires
        discriminator.valid(),
    ensures
        ({
            let head = block.spec_render() + floor.spec_render();
            let whole = (HighfieldRoom::Classroom { block, floor, discriminator }).spec_render();
            whole == head + spec_padded_two(discriminator.spec_get() as int) && whole.len()
                == head.len() + 2 && is_digit_char(whole[whole.len() - 2]) && is_digit_char(
                whole[whole.len() - 1],
            ) && (discriminator.spec_get() < 10 ==> whole[whole.len() - 2] == '0')
        }),
{
}

/// A Fearnhill classroom's discriminator is never zero-padded: a value below
/// ten renders as a single digit, a larger one as two, and the leading digit
/// is never '0', for every value in `1..=99`.
pub proof fn lemma_fearnhill_discriminator_no_padding(
    section: FearnhillSection,
    discriminator: RangedU8<1, 99>,
)
    requires
        discriminator.valid(),
    ensures
        ({
            let tail = spec_decimal(discriminator.spec_get() as int);
            let whole = (FearnhillRoom::Classroom { section, discriminator }).spec_render();
            whole == section.spec_render() + tail && tail.len() == (if discriminator.spec_get()
                < 10 {
                1int
            } else {
                2int
            }) && tail[0] != '0' && (forall|i: int| 0 <= i < tail.len() ==> is_digit_char(tail[i]))
        }),
{
}

} // verus!
