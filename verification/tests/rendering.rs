use school_rooms::{
    FearnhillRoom, FearnhillSection, HighfieldBlock, HighfieldFloor, HighfieldRoom, Location,
    RangedU8,
};

fn level(n: u8) -> HighfieldFloor {
    HighfieldFloor::Level(RangedU8::construct(n).unwrap())
}

fn highfield_classroom(block: HighfieldBlock, floor: HighfieldFloor, d: u8) -> HighfieldRoom {
    HighfieldRoom::Classroom {
        block,
        floor,
        discriminator: RangedU8::construct(d).unwrap(),
    }
}

fn fearnhill_classroom(section: FearnhillSection, d: u8) -> FearnhillRoom {
    FearnhillRoom::Classroom {
        section,
        discriminator: RangedU8::construct(d).unwrap(),
    }
}

#[test]
fn block_letters() {
    assert_eq!(HighfieldBlock::Howard.render(), "H");
    assert_eq!(HighfieldBlock::Parker.render(), "P");
    assert_eq!(HighfieldBlock::Unwin.render(), "U");
}

#[test]
fn floor_characters() {
    assert_eq!(HighfieldFloor::Ground.render(), "G");
    assert_eq!(level(1).render(), "1");
    assert_eq!(level(9).render(), "9");
}

#[test]
fn highfield_named_rooms() {
    assert_eq!(HighfieldRoom::Hall.render(), "Hall");
    assert_eq!(HighfieldRoom::SportsHall.render(), "Sports Hall");
}

#[test]
fn highfield_classroom_zero_padded() {
    assert_eq!(
        highfield_classroom(HighfieldBlock::Unwin, HighfieldFloor::Ground, 1).render(),
        "UG01"
    );
    assert_eq!(
        highfield_classroom(HighfieldBlock::Howard, HighfieldFloor::Ground, 5).render(),
        "HG05"
    );
    assert_eq!(
        highfield_classroom(HighfieldBlock::Parker, level(3), 27).render(),
        "P327"
    );
    assert_eq!(
        highfield_classroom(HighfieldBlock::Howard, level(9), 99).render(),
        "H999"
    );
}

#[test]
fn section_codes() {
    assert_eq!(FearnhillSection::Science.render(), "S");
    assert_eq!(FearnhillSection::Business.render(), "B");
    assert_eq!(FearnhillSection::PSHE.render(), "P");
    assert_eq!(FearnhillSection::Languages.render(), "L");
    assert_eq!(FearnhillSection::Technology.render(), "T");
    assert_eq!(FearnhillSection::Mathematics.render(), "M");
    assert_eq!(FearnhillSection::English.render(), "E");
    assert_eq!(FearnhillSection::Music.render(), "Mu");
    assert_eq!(FearnhillSection::Humanities.render(), "H");
    assert_eq!(FearnhillSection::IT.render(), "I");
}

#[test]
fn fearnhill_named_rooms() {
    assert_eq!(FearnhillRoom::SportsHall.render(), "Sports Hall");
    assert_eq!(FearnhillRoom::Gym.render(), "Gym");
    assert_eq!(FearnhillRoom::DanceStudio.render(), "Dance Studio");
    assert_eq!(FearnhillRoom::DramaStudio.render(), "Drama Studio");
}

#[test]
fn fearnhill_classroom_not_padded() {
    assert_eq!(fearnhill_classroom(FearnhillSection::English, 1).render(), "E1");
    assert_eq!(fearnhill_classroom(FearnhillSection::Science, 5).render(), "S5");
    assert_eq!(fearnhill_classroom(FearnhillSection::Science, 12).render(), "S12");
    assert_eq!(fearnhill_classroom(FearnhillSection::Music, 4).render(), "Mu4");
    assert_eq!(fearnhill_classroom(FearnhillSection::Humanities, 99).render(), "H99");
}

#[test]
fn location_prefixes() {
    assert_eq!(Location::Highfield(HighfieldRoom::Hall).render(), "Hall");
    assert_eq!(
        Location::Highfield(HighfieldRoom::SportsHall).render(),
        "Sports Hall"
    );
    assert_eq!(
        Location::Highfield(highfield_classroom(
            HighfieldBlock::Howard,
            HighfieldFloor::Ground,
            5
        ))
        .render(),
        "HG05"
    );
    assert_eq!(
        Location::Fearnhill(FearnhillRoom::SportsHall).render(),
        "FH Sports Hall"
    );
    assert_eq!(Location::Fearnhill(FearnhillRoom::Gym).render(), "FH Gym");
    assert_eq!(
        Location::Fearnhill(fearnhill_classroom(FearnhillSection::Music, 4)).render(),
        "FH Mu4"
    );
    assert_eq!(
        Location::Fearnhill(fearnhill_classroom(FearnhillSection::Science, 12)).render(),
        "FH S12"
    );
}

#[test]
fn sports_halls_never_collide() {
    assert_ne!(
        Location::Highfield(HighfieldRoom::SportsHall).render(),
        Location::Fearnhill(FearnhillRoom::SportsHall).render()
    );
}

#[test]
fn rendering_is_deterministic() {
    let a = Location::Fearnhill(fearnhill_classroom(FearnhillSection::Technology, 42));
    let b = Location::Fearnhill(fearnhill_classroom(FearnhillSection::Technology, 42));
    assert_eq!(a, b);
    assert_eq!(a.render(), a.render());
    assert_eq!(a.render(), b.render());
}

#[test]
fn padding_asymmetry_over_whole_range() {
    for d in 1..=99u8 {
        let h = highfield_classroom(HighfieldBlock::Howard, HighfieldFloor::Ground, d).render();
        let suffix = &h[2..];
        assert_eq!(suffix.len(), 2);
        assert!(suffix.chars().all(|c| c.is_ascii_digit()));
        assert_eq!(suffix, format!("{:0>2}", d));

        let f = fearnhill_classroom(FearnhillSection::Science, d).render();
        let tail = &f[1..];
        assert!(!tail.starts_with('0'));
        assert_eq!(tail, format!("{}", d));
    }
}
