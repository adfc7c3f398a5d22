use rotmg::servers::{Server, ServerList};

fn server(name: &str, host: &str) -> Server {
    Server { name: name.to_string(), host: host.to_string() }
}

#[test]
fn abbreviated_names() {
    let cases = [
        ("USEast", "use"),
        ("USWest3", "usw3"),
        ("EUNorth", "eun"),
        ("EUSouthWest", "eusw"),
        ("USMidWest", "usmw"),
        ("AsiaSouthEast", "asse"),
        ("Australia", "aus"),
        ("USSouth2", "uss2"),
    ];
    for (name, abbreviation) in cases {
        assert_eq!(server(name, "host").abbreviated_name(), abbreviation);
    }
}

#[test]
fn servers_are_found_by_name_and_by_abbreviation() {
    let list = ServerList::new(
        vec![server("USEast", "54.0.0.1"), server("EUNorth", "54.0.0.2")],
        "USEast",
    )
    .unwrap();
    assert_eq!(list.get("USEast"), Some("54.0.0.1"));
    assert_eq!(list.get("use"), Some("54.0.0.1"));
    assert_eq!(list.get("EUNorth"), Some("54.0.0.2"));
    assert_eq!(list.get("eun"), Some("54.0.0.2"));
    assert_eq!(list.get("useast"), None);
    assert_eq!(list.get(""), None);
    assert_eq!(list.get_default(), "54.0.0.1");
}

#[test]
fn default_server_by_abbreviation() {
    let list = ServerList::new(
        vec![server("USEast", "54.0.0.1"), server("EUNorth", "54.0.0.2")],
        "eun",
    )
    .unwrap();
    assert_eq!(list.get_default(), "54.0.0.2");
}

#[test]
fn unknown_default_server() {
    assert!(ServerList::new(vec![server("USEast", "54.0.0.1")], "USWest").is_none());
    assert!(ServerList::new(vec![], "USEast").is_none());
}

#[test]
fn a_later_server_replaces_an_earlier_one_of_the_same_name() {
    let list = ServerList::new(
        vec![server("USEast", "first"), server("useast", "second"), server("USEast", "third")],
        "USEast",
    )
    .unwrap();
    assert_eq!(list.get("USEast"), Some("third"));
    assert_eq!(list.get("useast"), Some("second"));
    assert_eq!(list.get("use"), Some("third"));
    assert_eq!(list.get_default(), "third");
}
