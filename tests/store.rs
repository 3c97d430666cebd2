use sec_scraper::store::AccessionStore;

#[test]
fn accession_number_test() {
    let x = 1337;
    let mut store = AccessionStore::new();
    store.delete_accession_number(x);
    assert!(!store.has_accession_number(x));
    store.write_accession_number(x);
    assert!(store.has_accession_number(x));
    assert!(store.delete_accession_number(x));
    assert!(!store.has_accession_number(x));
}

#[test]
fn store_write_is_idempotent_and_delete_all_clears() {
    let mut store = AccessionStore::new();
    store.write_accession_number(1);
    store.write_accession_number(1);
    store.write_accession_number(2);
    assert!(store.delete_accession_number(1));
    assert!(!store.has_accession_number(1));
    assert!(!store.delete_accession_number(1));
    assert!(store.has_accession_number(2));
    store.delete_all();
    assert!(!store.has_accession_number(2));
}
