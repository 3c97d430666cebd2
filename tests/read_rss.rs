use sec_scraper::errors::ScrapeError;
use sec_scraper::read_rss::{
    clean_filing, clean_timestamp, clean_title, clean_xml, ignore_filing, parse_xml, read_rss,
};
use sec_scraper::sec_entry::{FilingType, SECEntry};
use sec_scraper::store::AccessionStore;

fn fragments(v: Vec<&str>) -> Vec<String> {
    v.into_iter().map(String::from).collect::<Vec<String>>()
}

fn wilson_4a() -> Vec<&'static str> {
    vec![
        "4/A - Wilson Andrew (0001545193) (Reporting)",
        "\n <b>Filed:</b> 2018-07-05 <b>AccNo:</b> 0001454387-18-000188 <b>Size:</b> 5 KB\n",
        "2018-07-05T20:51:01-04:00",
        "urn:tag:sec.gov,2008:accession-number=0001454387-18-000188",
    ]
}

#[test]
fn clean_title_test_s1a() {
    assert_eq!(
        clean_title(Some(
            &"S-1/A - Tipmefast, Inc. (0001726079) (Filer)".to_owned()
        ))
        .unwrap(),
        ("S-1/A", "Tipmefast, Inc.", 1726079)
    );
}

#[test]
fn clean_title_test_standard() {
    assert_eq!(
        clean_title(Some(&"4 - Wang Janet (0001655081) (Reporting)".to_owned())).unwrap(),
        ("4", "Wang Janet", 1655081)
    );
}

#[test]
fn clean_title_takes_second_segment_trimmed() {
    let t = "497 - JACKSON NATIONAL SEPARATE ACCOUNT - I (0000927730) (Filer)".to_owned();
    assert_eq!(
        clean_title(Some(&t)).unwrap(),
        ("497", "JACKSON NATIONAL SEPARATE ACCOUNT", 927730)
    );
    let t = "SC 13G/A -   Some Fund  LP   (0000000042) (Subject)".to_owned();
    assert_eq!(clean_title(Some(&t)).unwrap(), ("SC 13G/A", "Some Fund  LP", 42));
}

#[test]
fn clean_title_errors() {
    let no_sep = "4 Wang Janet (0001655081) (Reporting)".to_owned();
    assert!(matches!(clean_title(Some(&no_sep)), Err(ScrapeError::TitleFormat(t)) if t == no_sep));
    let no_key = "4 - Wang Janet (Reporting)".to_owned();
    assert!(matches!(clean_title(Some(&no_key)), Err(ScrapeError::TitleFormat(t)) if t == no_key));
    let too_big = "4 - Wang Janet (99999999999999999999999) (Reporting)".to_owned();
    assert!(matches!(clean_title(Some(&too_big)), Err(ScrapeError::TitleFormat(_))));
    assert!(matches!(clean_title(None), Err(ScrapeError::TitleFormat(t)) if t.is_empty()));
}

#[test]
fn clean_filing_test() {
    assert_eq!(
        (20180629, 114036118030802),
        clean_filing(Some(
            &"<b>Filed:</b> 2018-06-29 <b>AccNo:</b> 0001140361-18-030802 <b>Size:</b> 25 KB"
                .to_string()
        ))
        .expect("")
    );
}

#[test]
fn clean_filing_errors() {
    let one_run = "<b>Filed:</b> 2018-06-29 <b>Size:</b> 25 KB".to_owned();
    assert!(matches!(clean_filing(Some(&one_run)), Err(ScrapeError::FilingInfoFormat(t)) if t == one_run));
    let empty_run = "<b>Filed:</b> -- <b>AccNo:</b> 0001140361-18-030802".to_owned();
    assert!(matches!(clean_filing(Some(&empty_run)), Err(ScrapeError::FilingInfoFormat(_))));
    assert!(matches!(clean_filing(None), Err(ScrapeError::FilingInfoFormat(_))));
}

#[test]
fn clean_timestamp_checks_presence() {
    let t = "2018-07-05T20:51:01-04:00".to_owned();
    assert_eq!(clean_timestamp(Some(&t)).unwrap(), &t);
    let empty = String::new();
    assert!(matches!(clean_timestamp(Some(&empty)), Err(ScrapeError::MissingTimestamp(_))));
    assert!(matches!(clean_timestamp(None), Err(ScrapeError::MissingTimestamp(_))));
}

#[test]
fn ignore_filing_skips_rest_of_entry() {
    let mut cursor: usize = 1;
    ignore_filing(&mut cursor);
    assert_eq!(cursor, 4);
}

#[test]
fn clean_xml_ignore0() {
    let vec = fragments(wilson_4a());
    let mut ignore_set = Vec::new();
    ignore_set.push(FilingType::Sec4A);
    let mut store = AccessionStore::new();

    assert_eq!(Vec::<SECEntry>::new(), clean_xml(vec, ignore_set, &mut store).unwrap());
    assert!(!store.has_accession_number(145438718000188));
}

#[test]
fn clean_xml_ignore1() {
    let _entry = SECEntry::new(
        FilingType::Sec4A,
        String::from("Wilson Andrew"),
        1545193,
        145438718000188,
        20180705,
        String::from("2018-07-05T20:51:01-04:00"),
    );

    let test = vec![
        "4/A - Wilson Andrew (0001545193) (Reporting)",
        "\n <b>Filed:</b> 2018-07-05 <b>AccNo:</b> 0001454387-18-000188 <b>Size:</b> 5 KB\n",
        "2018-07-05T20:51:01-04:00",
        "urn:tag:sec.gov,2008:accession-number=0001454387-18-000188",
        "4 - Wilson Andrew (0001545193) (Reporting)",
        "\n <b>Filed:</b> 2018-07-05 <b>AccNo:</b> 0001454387-18-000188 <b>Size:</b> 5 KB\n",
        "2018-07-05T20:51:01-04:00",
        "urn:tag:sec.gov,2008:accession-number=0001454387-18-000188",
    ];
    let vec = fragments(test);
    let mut ignore_set = Vec::new();
    ignore_set.push(FilingType::Sec4A);
    let entry = SECEntry::new(
        FilingType::Sec4,
        String::from("Wilson Andrew"),
        1545193,
        145438718000188,
        20180705,
        String::from("2018-07-05T20:51:01-04:00"),
    );
    let mut store = AccessionStore::new();

    assert_eq!(Some(entry), clean_xml(vec, ignore_set, &mut store).unwrap().pop());
}

#[test]
fn clean_xml_test() {
    let vec = fragments(wilson_4a());
    let entry = SECEntry::new(
        FilingType::Sec4A,
        String::from("Wilson Andrew"),
        1545193,
        145438718000188,
        20180705,
        String::from("2018-07-05T20:51:01-04:00"),
    );
    let mut store = AccessionStore::new();
    assert_eq!(Some(entry), clean_xml(vec, Vec::new(), &mut store).unwrap().pop());
}

#[test]
fn clean_xml_mega_test() {
    let test = fragments(vec![
        "4 - REDIKER DENNIS L (0001189878) (Reporting)",
        "\n <b>Filed:</b> 2018-09-05 <b>AccNo:</b> 0001127602-18-026759 <b>Size:</b> 4 KB\n",
        "2018-09-05T12:36:45-04:00",
        "urn:tag:sec.gov,2008:accession-number=0001127602-18-026759",
        "4 - MARTIN MARIETTA MATERIALS INC (0000916076) (Issuer)",
        "\n <b>Filed:</b> 2018-09-05 <b>AccNo:</b> 0001127602-18-026759 <b>Size:</b> 4 KB\n",
        "2018-09-05T12:36:45-04:00",
        "urn:tag:sec.gov,2008:accession-number=0001127602-18-026759",
        "FWP - WELLS FARGO & COMPANY/MN (0000072971) (Subject)",
        "\n <b>Filed:</b> 2018-09-05 <b>AccNo:</b> 0001387131-18-004493 <b>Size:</b> 108 KB\n",
        "2018-09-05T12:36:29-04:00",
        "urn:tag:sec.gov,2008:accession-number=0001387131-18-004493",
    ]);
    let mut store = AccessionStore::new();

    if let Ok(x) = clean_xml(test, Vec::new(), &mut store) {
        println!("{:#?}", &x);
        // The second entry repeats the first one's accession number, so it is
        // absorbed by the dedup store.
        assert_eq!(x.len(), 2);
        assert_eq!(x[0].name(), "REDIKER DENNIS L");
        assert_eq!(x[1].filing_type(), FilingType::SecFWP);
    } else {
        assert!(false);
    }
}

#[test]
fn clean_xml_mega_mega_test() {
    let test = fragments(vec![
        "497 - JACKSON NATIONAL SEPARATE ACCOUNT - I (0000927730) (Filer)",
        "\n <b>Filed:</b> 2018-09-05 <b>AccNo:</b> 0000927730-18-000500 <b>Size:</b> 69 KB\n",
        "2018-09-05T13:06:11-04:00",
        "urn:tag:sec.gov,2008:accession-number=0000927730-18-000500",
    ]);

    let entry = SECEntry::new(
        FilingType::Sec497,
        String::from("JACKSON NATIONAL SEPARATE ACCOUNT"),
        927730,
        92773018000500,
        20180905,
        String::from("2018-09-05T13:06:11-04:00"),
    );
    let mut store = AccessionStore::new();

    if let Ok(mut x) = clean_xml(test, Vec::new(), &mut store) {
        assert_eq!(x.pop().unwrap(), entry);
    } else {
        assert!(false);
    }
}

#[test]
fn ignored_entry_leaves_store_untouched_and_unignored_yields_one() {
    let mut store = AccessionStore::new();
    let mut ignore_set = Vec::new();
    ignore_set.push(FilingType::Sec4A);
    let out = clean_xml(fragments(wilson_4a()), ignore_set, &mut store).unwrap();
    assert!(out.is_empty());
    assert!(!store.has_accession_number(145438718000188));

    let out = clean_xml(fragments(wilson_4a()), Vec::new(), &mut store).unwrap();
    assert_eq!(out.len(), 1);
    assert_eq!(out[0].filing_type(), FilingType::Sec4A);
    assert!(store.has_accession_number(145438718000188));
}

#[test]
fn second_pass_yields_nothing() {
    let mut store = AccessionStore::new();
    let first = clean_xml(fragments(wilson_4a()), Vec::new(), &mut store).unwrap();
    assert_eq!(first.len(), 1);
    let second = clean_xml(fragments(wilson_4a()), Vec::new(), &mut store).unwrap();
    assert!(second.is_empty());
}

#[test]
fn previously_recorded_number_is_dropped() {
    let mut store = AccessionStore::new();
    store.write_accession_number(145438718000188);
    let out = clean_xml(fragments(wilson_4a()), Vec::new(), &mut store).unwrap();
    assert!(out.is_empty());
}

#[test]
fn fragment_count_not_multiple_of_four_fails() {
    let mut store = AccessionStore::new();
    let mut three = wilson_4a();
    three.pop();
    let r = clean_xml(fragments(three), Vec::new(), &mut store);
    assert!(matches!(r, Err(ScrapeError::MalformedFeed(3))));
    let mut five = wilson_4a();
    five.push("extra");
    let r = clean_xml(fragments(five), Vec::new(), &mut store);
    assert!(matches!(r, Err(ScrapeError::MalformedFeed(5))));
    assert!(!store.has_accession_number(145438718000188));
}

#[test]
fn empty_batch_yields_nothing() {
    let mut store = AccessionStore::new();
    assert!(clean_xml(Vec::new(), Vec::new(), &mut store).unwrap().is_empty());
}

#[test]
fn unknown_type_aborts_batch() {
    let mut store = AccessionStore::new();
    let mut frags = wilson_4a();
    frags.push("XYZ - Somebody (0000000001) (Filer)");
    frags.push("<b>Filed:</b> 2018-07-05 <b>AccNo:</b> 0000000001-18-000001");
    frags.push("2018-07-05T20:51:01-04:00");
    frags.push("urn");
    let r = clean_xml(fragments(frags), Vec::new(), &mut store);
    assert!(matches!(r, Err(ScrapeError::Classification(t)) if t == "XYZ"));
    // The entry before the failing one was recorded as it went.
    assert!(store.has_accession_number(145438718000188));
}

#[test]
fn unknown_type_fails_even_when_ignoring() {
    let mut store = AccessionStore::new();
    let frags = vec!["XYZ - Somebody (0000000001) (Filer)", "junk", "", "urn"];
    let r = clean_xml(fragments(frags), vec![FilingType::Sec4], &mut store);
    assert!(matches!(r, Err(ScrapeError::Classification(_))));
}

#[test]
fn ignored_entry_is_not_parsed_further() {
    let mut store = AccessionStore::new();
    let frags = vec!["4 - Somebody (0000000001) (Filer)", "junk", "", "urn"];
    let r = clean_xml(fragments(frags), vec![FilingType::Sec4], &mut store);
    assert!(r.unwrap().is_empty());
}

#[test]
fn bad_blocks_raise_their_errors() {
    let mut store = AccessionStore::new();
    let frags = vec!["no separator (0000000001)", "x", "y", "z"];
    let r = clean_xml(fragments(frags), Vec::new(), &mut store);
    assert!(matches!(r, Err(ScrapeError::TitleFormat(t)) if t == "no separator (0000000001)"));

    let frags = vec!["4 - Somebody (0000000001) (Filer)", "Filed: today", "t", "urn"];
    let r = clean_xml(fragments(frags), Vec::new(), &mut store);
    assert!(matches!(r, Err(ScrapeError::FilingInfoFormat(t)) if t == "Filed: today"));

    let frags = vec![
        "4 - Somebody (0000000001) (Filer)",
        "<b>Filed:</b> 2018-07-05 <b>AccNo:</b> 0000000001-18-000001",
        "",
        "urn",
    ];
    let r = clean_xml(fragments(frags), Vec::new(), &mut store);
    assert!(matches!(r, Err(ScrapeError::MissingTimestamp(_))));
    assert!(!store.has_accession_number(118000001));
}

const FEED: &str = r#"<?xml version="1.0" encoding="ISO-8859-1" ?>
<feed xmlns="http://www.w3.org/2005/Atom">
<title>Latest Filings</title>
<updated>2018-07-05T20:53:36-04:00</updated>
<entry>
<title>4/A - Wilson Andrew (0001545193) (Reporting)</title>
<link rel="alternate" type="text/html" href="https://www.sec.gov/Archives/edgar/data/1545193/000145438718000188/0001454387-18-000188-index.htm"/>
<summary type="html"> &lt;b&gt;Filed:&lt;/b&gt; 2018-07-05 &lt;b&gt;AccNo:&lt;/b&gt; 0001454387-18-000188 &lt;b&gt;Size:&lt;/b&gt; 5 KB</summary>
<updated>2018-07-05T20:51:01-04:00</updated>
<category scheme="https://www.sec.gov/" label="form type" term="4/A"/>
<id>urn:tag:sec.gov,2008:accession-number=0001454387-18-000188</id>
</entry>
<entry>
<title>S-1/A - Tipmefast, Inc. (0001726079) (Filer)</title>
<summary type="html"> &lt;b&gt;Filed:&lt;/b&gt; 2018-06-29 &lt;b&gt;AccNo:&lt;/b&gt; 0001140361-18-030802 &lt;b&gt;Size:&lt;/b&gt; 25 KB</summary>
<updated>2018-06-29T16:00:00-04:00</updated>
<id>urn:tag:sec.gov,2008:accession-number=0001140361-18-030802</id>
</entry>
</feed>
"#;

#[test]
fn parse_xml_keeps_text_inside_entries() {
    let frags = parse_xml(FEED);
    assert_eq!(frags.len(), 8);
    assert_eq!(frags[0], "4/A - Wilson Andrew (0001545193) (Reporting)");
    assert_eq!(
        frags[1],
        " <b>Filed:</b> 2018-07-05 <b>AccNo:</b> 0001454387-18-000188 <b>Size:</b> 5 KB"
    );
    assert_eq!(frags[2], "2018-07-05T20:51:01-04:00");
    assert_eq!(frags[3], "urn:tag:sec.gov,2008:accession-number=0001454387-18-000188");
    assert_eq!(frags[4], "S-1/A - Tipmefast, Inc. (0001726079) (Filer)");
}

#[test]
fn parse_xml_matches_entry_by_substring() {
    let doc = "<root><x:myentry xmlns:x=\"urn:x\"><a>one</a></x:myentry><b>two</b><entryish>three</entryish></root>";
    assert_eq!(parse_xml(doc), vec!["one".to_owned(), "three".to_owned()]);
    assert!(parse_xml("<root><a>outside</a></root>").is_empty());
}

#[test]
fn read_rss_end_to_end() {
    let mut store = AccessionStore::new();
    let out = read_rss(FEED, vec![FilingType::Sec4A], &mut store).unwrap();
    assert_eq!(out.len(), 1);
    assert_eq!(
        out[0],
        SECEntry::new(
            FilingType::SecS1,
            String::from("Tipmefast, Inc."),
            1726079,
            114036118030802,
            20180629,
            String::from("2018-06-29T16:00:00-04:00"),
        )
    );
    assert!(store.has_accession_number(114036118030802));
    assert!(!store.has_accession_number(145438718000188));
    assert!(read_rss(FEED, vec![FilingType::Sec4A], &mut store).unwrap().is_empty());
}
