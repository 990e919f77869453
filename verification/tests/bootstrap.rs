use kmdata::download_files;
use kmdata::listing_url;
use kmdata::step;
use kmdata::Bootstrap;
use kmdata::BootstrapAction;
use kmdata::BootstrapEvent;
use kmdata::Data;
use kmdata::DataKind;
use kmdata::Error;
use kmdata::Phase;
use kmdata::RemoteEntry;

fn entry(name: &str, url: &str) -> RemoteEntry {
    RemoteEntry { name: name.to_string(), download_url: url.to_string() }
}

fn write_err() -> std::io::Error {
    std::io::Error::new(std::io::ErrorKind::PermissionDenied, "read-only")
}

#[test]
fn listing_urls_name_each_repository() {
    assert_eq!(
        listing_url(DataKind::Corpus),
        "https://api.github.com/repos/semilin/km_corpora/contents/".to_string()
    );
    assert_eq!(
        listing_url(DataKind::Keyboard),
        "https://api.github.com/repos/semilin/km_metric_data/contents/".to_string()
    );
    assert_eq!(
        listing_url(DataKind::Layout),
        "https://api.github.com/repos/semilin/km_layouts/contents/".to_string()
    );
}

#[test]
fn bootstrap_starts_with_corpora_listing() {
    let (st, act) = download_files();
    assert_eq!(st.phase, Phase::Listing);
    assert_eq!(st.kind, DataKind::Corpus);
    assert!(matches!(act, BootstrapAction::GetListing(DataKind::Corpus)));
}

#[test]
fn failed_listing_aborts_without_any_write() {
    let (st, _) = download_files();
    let (st, act) = step(st, BootstrapEvent::ListingErr(minreq::Error::AddressNotFound));
    assert_eq!(st.phase, Phase::Aborted);
    assert!(matches!(act, BootstrapAction::Failed(Error::Download(_))));
}

#[test]
fn failed_write_aborts_the_bootstrap() {
    let (st, _) = download_files();
    let (st, act) = step(st, BootstrapEvent::ListingOk(vec![entry("a.bin", "u1")]));
    assert!(matches!(act, BootstrapAction::GetFile(u) if u == "u1"));
    let (st, act) = step(st, BootstrapEvent::FileOk(vec![9]));
    assert!(matches!(act, BootstrapAction::Write(DataKind::Corpus, n, c) if n == "a.bin" && c == vec![9]));
    let (st, act) = step(st, BootstrapEvent::WriteErr(write_err()));
    assert_eq!(st.phase, Phase::Aborted);
    assert!(matches!(act, BootstrapAction::Failed(Error::FileWrite(_))));
}

fn drive(mut st: Bootstrap, mut act: BootstrapAction, events: Vec<BootstrapEvent>) -> (Bootstrap, BootstrapAction, Vec<(DataKind, String, Vec<u8>)>) {
    let mut writes = Vec::new();
    for ev in events {
        let next = step(st, ev);
        st = next.0;
        act = next.1;
        if let BootstrapAction::Write(kind, name, contents) = &act {
            writes.push((*kind, name.clone(), contents.clone()));
        }
    }
    (st, act, writes)
}

#[test]
fn one_failed_fetch_skips_only_that_entry() {
    let (st, act) = download_files();
    let listing = vec![entry("a.bin", "u1"), entry("b.bin", "u2"), entry("c.bin", "u3")];
    let (st, act, writes) = drive(
        st,
        act,
        vec![
            BootstrapEvent::ListingOk(listing),
            BootstrapEvent::FileOk(vec![1, 2]),
            BootstrapEvent::WriteOk,
            BootstrapEvent::FileErr,
            BootstrapEvent::FileOk(vec![3]),
            BootstrapEvent::WriteOk,
            BootstrapEvent::ListingOk(vec![]),
            BootstrapEvent::ListingOk(vec![]),
        ],
    );
    assert_eq!(st.phase, Phase::Done);
    assert!(matches!(act, BootstrapAction::Finished));
    assert_eq!(
        writes,
        vec![
            (DataKind::Corpus, "a.bin".to_string(), vec![1, 2]),
            (DataKind::Corpus, "c.bin".to_string(), vec![3]),
        ]
    );

    // A later construction over what was written misses exactly the
    // skipped entry.
    let listed: Vec<(String, String)> = writes
        .iter()
        .map(|(_, name, _)| (name.clone(), format!("/d/corpora/{}", name)))
        .collect();
    let d = Data::from_listings("/d".to_string(), &listed, &vec![], &vec![]);
    assert!(d.lookup(DataKind::Corpus, "a").is_ok());
    assert!(d.lookup(DataKind::Corpus, "c").is_ok());
    assert!(matches!(
        d.lookup(DataKind::Corpus, "b"),
        Err(Error::Locate(DataKind::Corpus, n)) if n == "b"
    ));
}

#[test]
fn categories_are_walked_in_fixed_order() {
    let (st, _) = download_files();
    assert_eq!(st.kind, DataKind::Corpus);
    let (st, act) = step(st, BootstrapEvent::ListingOk(vec![]));
    assert_eq!(st.kind, DataKind::Keyboard);
    assert!(matches!(act, BootstrapAction::GetListing(DataKind::Keyboard)));
    let (st, act) = step(st, BootstrapEvent::ListingOk(vec![]));
    assert_eq!(st.kind, DataKind::Layout);
    assert!(matches!(act, BootstrapAction::GetListing(DataKind::Layout)));
    let (st, act) = step(st, BootstrapEvent::ListingOk(vec![]));
    assert_eq!(st.phase, Phase::Done);
    assert!(matches!(act, BootstrapAction::Finished));
}

#[test]
fn minreq_failures_convert_to_download_errors() {
    let e: Error = Error::from(minreq::Error::AddressNotFound);
    assert!(matches!(e, Error::Download(_)));
}

#[test]
fn request_timeout_is_a_fixed_few_seconds() {
    assert_eq!(kmdata::REQUEST_TIMEOUT_SECS, 8);
}
