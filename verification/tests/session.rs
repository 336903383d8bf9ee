use tick_interpolation::clients::find_client;
use tick_interpolation::session::Session;

#[test]
fn session_numbers_actors_from_zero() {
    let mut session = Session::default();
    assert!(!session.is_exhausted());
    let first = session.actor();
    let second = session.actor();
    let third = session.actor();
    assert_eq!(first.id(), 0);
    assert_eq!(second.id(), 1);
    assert_eq!(third.id(), 2);
    assert!(!session.is_exhausted());
}

#[test]
fn sessions_count_on_their_own() {
    let mut one = Session::default();
    let mut other = Session::default();
    assert_eq!(one.actor().id(), 0);
    assert_eq!(one.actor().id(), 1);
    assert_eq!(other.actor().id(), 0);
    assert_eq!(one.actor().id(), 2);
}

#[test]
fn find_client_gives_the_entity_of_the_id() {
    let clients = vec![('a', 7), ('b', 3), ('c', 9)];
    assert_eq!(find_client(&clients, 7), Some('a'));
    assert_eq!(find_client(&clients, 3), Some('b'));
    assert_eq!(find_client(&clients, 9), Some('c'));
}

#[test]
fn find_client_gives_none_for_an_unknown_id() {
    let clients = vec![('a', 7), ('b', 3)];
    assert_eq!(find_client(&clients, 4), None);
    let nobody: Vec<(char, u64)> = Vec::new();
    assert_eq!(find_client(&nobody, 7), None);
}

#[test]
fn find_client_takes_the_first_of_several() {
    let clients = vec![('a', 1), ('b', 2), ('c', 2), ('d', 2)];
    assert_eq!(find_client(&clients, 2), Some('b'));
}
