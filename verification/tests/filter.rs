use acme_check::filter::filter_certs;
use acme_check::model::Certificate;

fn cert(name: &str, dns_names: &[&str]) -> Certificate {
    Certificate {
        name: String::from(name),
        dns_names: dns_names.iter().map(|d| String::from(*d)).collect(),
    }
}

fn abc() -> Vec<Certificate> {
    vec![
        cert("A", &["a.example"]),
        cert("B", &["b.example", "www.b.example"]),
        cert("C", &["c.example"]),
    ]
}

#[test]
fn empty_filter_selects_all_in_original_order() {
    let selected = filter_certs(abc(), &Vec::new());
    assert_eq!(selected, abc());
}

#[test]
fn single_name_filter_selects_exactly_that_certificate() {
    let filter = vec![String::from("A")];
    let selected = filter_certs(abc(), &filter);
    assert_eq!(selected, vec![cert("A", &["a.example"])]);
}

#[test]
fn unmatched_filter_selects_none_without_error() {
    let filter = vec![String::from("Z")];
    let selected = filter_certs(abc(), &filter);
    assert_eq!(selected, Vec::new());
}

#[test]
fn unknown_names_beside_known_ones_are_ignored() {
    let filter = vec![String::from("Z"), String::from("B")];
    let selected = filter_certs(abc(), &filter);
    assert_eq!(selected, vec![cert("B", &["b.example", "www.b.example"])]);
}

#[test]
fn filter_is_membership_only_so_duplicates_change_nothing() {
    let filter = vec![String::from("C"), String::from("C")];
    let selected = filter_certs(abc(), &filter);
    assert_eq!(selected, vec![cert("C", &["c.example"])]);
}

#[test]
fn order_of_filter_names_does_not_reorder_certificates() {
    let filter = vec![String::from("C"), String::from("A")];
    let selected = filter_certs(abc(), &filter);
    assert_eq!(selected, vec![cert("A", &["a.example"]), cert("C", &["c.example"])]);
}
