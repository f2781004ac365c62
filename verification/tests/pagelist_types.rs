use petscan::coordinates::{float_text, PageCoordinates};
use petscan::file_info::{FileInfo, FileUsage};
use petscan::sort::PageListSort;
use petscan::title::Title;
use petscan::tristate::TriState;

#[test]
fn page_list_sort() {
    assert_eq!(
        PageListSort::new_from_params(&"incoming_links".to_string(), true),
        PageListSort::IncomingLinks(true)
    );
    assert_eq!(
        PageListSort::new_from_params(&"ns_title".to_string(), false),
        PageListSort::NsTitle(false)
    );
    assert_eq!(
        PageListSort::new_from_params(&"this is not a sort parameter".to_string(), true),
        PageListSort::Default(true)
    );
}

#[test]
fn file_usage() {
    // 3 instead of 4 parts
    assert_eq!(
        FileUsage::new_from_part(&"the_wiki:7:the_namespace_name".to_string()),
        None
    );
    // String instead of namespace ID
    assert_eq!(
        FileUsage::new_from_part(
            &"the_wiki:the_namespace_id:the_namespace_name:The:page".to_string()
        ),
        None
    );
    // This should work
    let fu = FileUsage::new_from_part(&"the_wiki:7:the_namespace_name:The:page".to_string())
        .unwrap();
    assert_eq!(fu.wiki(), "the_wiki");
    assert_eq!(fu.namespace_name(), "the_namespace_name");
    assert_eq!(*fu.title(), Title::new("The:page", 7));
}

#[test]
fn file_info() {
    let fu = FileUsage::new_from_part(&"the_wiki:7:the_namespace_name:The:page".to_string())
        .unwrap();
    let fi = FileInfo::new_from_gil_group(
        &"|somesuch|the_wiki:7:the_namespace_name:The:page|the_wiki:7:the_namespace_name"
            .to_string(),
    );
    assert_eq!(fi.file_usage, vec![fu]);
}

#[test]
fn tristate_as_option_bool() {
    assert_eq!(TriState::Yes.as_option_bool(), Some(true));
    assert_eq!(TriState::No.as_option_bool(), Some(false));
    assert_eq!(TriState::Unknown.as_option_bool(), None);
}

fn lat_lon_of(s: &str) -> Option<(f64, f64)> {
    PageCoordinates::new_from_lat_lon(&s.to_string())
        .map(|c| (c.lat().parse::<f64>().unwrap(), c.lon().parse::<f64>().unwrap()))
}

#[test]
fn lat_lon() {
    assert_eq!(
        PageCoordinates::new_from_lat_lon(&"something".to_string()),
        None
    );
    assert_eq!(
        PageCoordinates::new_from_lat_lon(&"-0.1234".to_string()),
        None
    );
    assert_eq!(
        PageCoordinates::new_from_lat_lon(&"-0.1234,A".to_string()),
        None
    );
    assert_eq!(lat_lon_of("-0.1234,2.345"), Some((-0.1234, 2.345)));
}

#[test]
fn coordinates_keep_their_numerals() {
    let c = PageCoordinates::new_from_lat_lon(&"+5.,.25e-3,ignored".to_string()).unwrap();
    assert_eq!(c.lat(), "+5.");
    assert_eq!(c.lon(), ".25e-3");
    assert_eq!(c, PageCoordinates::new_from_lat_lon(&"+5.,.25e-3".to_string()).unwrap());
    assert_eq!(PageCoordinates::new_from_lat_lon(&" 1,2".to_string()), None);
    assert_eq!(PageCoordinates::new_from_lat_lon(&"1,".to_string()), None);
    assert_eq!(PageCoordinates::new_from_lat_lon(&",".to_string()), None);
}

#[test]
fn numerals_are_what_rust_reads_as_floats() {
    let alphabet = ['1', '0', '.', 'e', 'E', '+', '-', 'i', 'n', 'f', 'a', 'N', ' ', 't', 'y'];
    let mut texts: Vec<String> = vec![String::new()];
    let mut from = 0;
    for _ in 0..4 {
        let upto = texts.len();
        for i in from..upto {
            for c in alphabet {
                let mut t = texts[i].clone();
                t.push(c);
                texts.push(t);
            }
        }
        from = upto;
    }
    for extra in [
        "infinity", "-Infinity", "+INFINITY", "infinit", "infinityy", "-nan", "NaN", "1e10", "1.5e+10",
        "1.5e-10", "12345.6789", "1e", "1e+", ".e1", "1..2", "1.2.3", "0x10", "1_0", "\u{663}",
        "1.5E5", "--1", "+-1", "1e1.5", "iNf", "1,2",
    ] {
        texts.push(extra.to_string());
    }
    for t in &texts {
        let chars: Vec<char> = t.chars().collect();
        assert_eq!(float_text(&chars), t.parse::<f64>().is_ok(), "{:?}", t);
    }
}
