use msp430_rt::naming::{name_from_draws, name_seed, random_ident, NAME_LEN};

fn well_formed(name: &str) -> bool {
    let chars: Vec<char> = name.chars().collect();
    chars.len() == NAME_LEN
        && ('a'..='y').contains(&chars[0])
        && chars[1..].iter().all(|c| ('a'..='y').contains(c) || c.is_ascii_digit())
}

#[test]
fn seed_holds_time_and_counter_little_endian() {
    let seed = name_seed(0x0102_0304_0506_0708, 0x1112_1314_1516_1718);
    assert_eq!(
        seed,
        [8, 7, 6, 5, 4, 3, 2, 1, 0x18, 0x17, 0x16, 0x15, 0x14, 0x13, 0x12, 0x11]
    );
    assert_eq!(name_seed(0, 0), [0; 16]);
}

#[test]
fn generated_names_are_identifiers() {
    for count in 0..50u64 {
        let name = random_ident(1_700_000_000, count);
        assert!(well_formed(&name), "{}", name);
    }
    assert!(well_formed(&random_ident(0, 0)));
    assert!(well_formed(&random_ident(u64::MAX, u64::MAX)));
}

#[test]
fn same_seed_gives_same_name() {
    assert_eq!(random_ident(1_700_000_000, 7), random_ident(1_700_000_000, 7));
}

#[test]
fn counter_salts_the_name() {
    assert_ne!(random_ident(1_700_000_000, 1), random_ident(1_700_000_000, 2));
}

#[test]
fn draws_spell_letters_and_digits() {
    assert_eq!(name_from_draws(&vec![true, false, true], &vec![0, 13, 26]), "a3b");
    assert_eq!(name_from_draws(&vec![false, false, true], &vec![24, 255, 49]), "y5y");
    assert_eq!(name_from_draws(&vec![false], &vec![25]), "a");
    assert_eq!(name_from_draws(&vec![], &vec![]), "");
}
