use person_registry::date::BirthDate;
use person_registry::person::{NewPerson, Person, RawPerson};
use person_registry::validation::{Nick, PersonName, Tech, ValidationError};

fn raw(name: &str, nick: &str, birth_date: &str, stack: Option<Vec<&str>>) -> RawPerson {
    RawPerson {
        name: name.to_string(),
        nick: nick.to_string(),
        birth_date: birth_date.to_string(),
        stack: stack.map(|entries| entries.into_iter().map(str::to_string).collect()),
    }
}

fn tech_names(stack: &Option<Vec<Tech>>) -> Option<Vec<String>> {
    stack.as_ref().map(|entries| entries.iter().map(|tech| tech.as_str().to_string()).collect())
}

#[test]
fn validate_keeps_every_field() {
    let checked =
        NewPerson::validate(raw("João", "Joãozinho", "1990-01-01", Some(vec!["C++", "Rust"])))
            .unwrap();
    assert_eq!(checked.name.as_str(), "João");
    assert_eq!(checked.nick.as_str(), "Joãozinho");
    assert_eq!(
        (checked.birth_date.year(), checked.birth_date.month(), checked.birth_date.day()),
        (1990, 1, 1)
    );
    assert_eq!(tech_names(&checked.stack), Some(vec!["C++".to_string(), "Rust".to_string()]));
}

#[test]
fn validate_tells_an_absent_stack_from_an_empty_one() {
    let absent = NewPerson::validate(raw("Ana", "ana", "2001-09-09", None)).unwrap();
    assert!(absent.stack.is_none());
    let empty = NewPerson::validate(raw("Ana", "ana", "2001-09-09", Some(vec![]))).unwrap();
    assert_eq!(tech_names(&empty.stack), Some(vec![]));
}

#[test]
fn validate_refuses_a_long_name() {
    let long = "n".repeat(101);
    assert_eq!(
        NewPerson::validate(raw(&long, "x", "1990-01-01", None)).unwrap_err(),
        ValidationError::NameTooLong
    );
}

#[test]
fn validate_refuses_a_long_nick() {
    let long = "k".repeat(33);
    assert_eq!(
        NewPerson::validate(raw("Ana", &long, "1990-01-01", None)).unwrap_err(),
        ValidationError::NickTooLong
    );
}

#[test]
fn validate_refuses_a_long_stack_entry_wherever_it_stands() {
    let long = "t".repeat(33);
    for stack in [
        vec![long.as_str()],
        vec![long.as_str(), "Rust"],
        vec!["Rust", long.as_str()],
        vec!["Rust", "Go", long.as_str(), "C"],
    ] {
        assert_eq!(
            NewPerson::validate(raw("Ana", "ana", "1990-01-01", Some(stack))).unwrap_err(),
            ValidationError::TechTooLong
        );
    }
}

#[test]
fn validate_accepts_stack_entries_at_the_limit() {
    let full = "t".repeat(32);
    let checked =
        NewPerson::validate(raw("Ana", "ana", "1990-01-01", Some(vec![full.as_str(), ""])))
            .unwrap();
    assert_eq!(tech_names(&checked.stack), Some(vec![full.clone(), String::new()]));
}

#[test]
fn validate_refuses_a_malformed_date() {
    for date in ["", "1990-02-30", "01/01/1990", "1990-1-1"] {
        assert_eq!(
            NewPerson::validate(raw("Ana", "ana", date, None)).unwrap_err(),
            ValidationError::MalformedDate
        );
    }
}

#[test]
fn validate_reports_the_first_rule_broken() {
    let name = "n".repeat(101);
    let nick = "k".repeat(33);
    let tech = "t".repeat(33);
    assert_eq!(
        NewPerson::validate(raw(&name, &nick, "never", Some(vec![tech.as_str()]))).unwrap_err(),
        ValidationError::NameTooLong
    );
    assert_eq!(
        NewPerson::validate(raw("Ana", &nick, "never", Some(vec![tech.as_str()]))).unwrap_err(),
        ValidationError::NickTooLong
    );
    assert_eq!(
        NewPerson::validate(raw("Ana", "ana", "never", Some(vec![tech.as_str()]))).unwrap_err(),
        ValidationError::TechTooLong
    );
    assert_eq!(
        NewPerson::validate(raw("Ana", "ana", "never", Some(vec!["Rust"]))).unwrap_err(),
        ValidationError::MalformedDate
    );
}

#[test]
fn validate_with_date_takes_the_date_as_read() {
    let checked =
        NewPerson::validate_with_date(raw("Ana", "ana", "ignored", None), Some((2000, 2, 29)))
            .unwrap();
    assert_eq!(
        (checked.birth_date.year(), checked.birth_date.month(), checked.birth_date.day()),
        (2000, 2, 29)
    );
    assert_eq!(
        NewPerson::validate_with_date(raw("Ana", "ana", "2000-02-29", None), None).unwrap_err(),
        ValidationError::MalformedDate
    );
    assert_eq!(
        NewPerson::validate_with_date(raw("Ana", "ana", "2000-02-29", None), Some((1900, 2, 29)))
            .unwrap_err(),
        ValidationError::MalformedDate
    );
}

#[test]
fn validate_with_date_checks_texts_before_the_date() {
    let nick = "k".repeat(33);
    assert_eq!(
        NewPerson::validate_with_date(raw("Ana", &nick, "x", None), None).unwrap_err(),
        ValidationError::NickTooLong
    );
}

#[test]
fn assemble_carries_every_field_over() {
    let new_person = NewPerson {
        name: PersonName::try_from("Maria".to_string()).unwrap(),
        nick: Nick::try_from("mari".to_string()).unwrap(),
        birth_date: BirthDate::from_calendar_date(1985, 7, 23).unwrap(),
        stack: Some(vec![
            Tech::try_from("Rust".to_string()).unwrap(),
            Tech::try_from("Postgres".to_string()).unwrap(),
        ]),
    };
    let person = Person::assemble(42, new_person.clone());
    assert_eq!(person.id(), 42);
    assert_eq!(person.name(), "Maria");
    assert_eq!(person.nick(), "mari");
    assert_eq!(
        (person.birth_date().year(), person.birth_date().month(), person.birth_date().day()),
        (1985, 7, 23)
    );
    assert_eq!(person.stack(), Some(&vec!["Rust".to_string(), "Postgres".to_string()]));
    assert_eq!(new_person.name.as_str(), "Maria");
}

#[test]
fn assemble_keeps_an_absent_stack_absent() {
    let new_person = NewPerson::validate(raw("Ana", "ana", "1990-01-01", None)).unwrap();
    let person = Person::assemble(u128::MAX, new_person);
    assert_eq!(person.id(), u128::MAX);
    assert_eq!(person.stack(), None);
    let new_person = NewPerson::validate(raw("Ana", "ana", "1990-01-01", Some(vec![]))).unwrap();
    assert_eq!(Person::assemble(0, new_person).stack(), Some(&vec![]));
}

#[test]
fn a_cloned_person_is_equal_in_every_field() {
    let new_person =
        NewPerson::validate(raw("João", "Joãozinho", "1990-01-01", Some(vec!["C++"]))).unwrap();
    let person = Person::assemble(7, new_person);
    let copy = person.clone();
    assert_eq!(copy.id(), person.id());
    assert_eq!(copy.name(), person.name());
    assert_eq!(copy.nick(), person.nick());
    assert_eq!(copy.birth_date().year(), person.birth_date().year());
    assert_eq!(copy.birth_date().month(), person.birth_date().month());
    assert_eq!(copy.birth_date().day(), person.birth_date().day());
    assert_eq!(copy.stack(), person.stack());
}
