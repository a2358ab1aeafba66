use k8s_netinspect::validation::Validator;
use regex::Regex;

const POD_NAME: &str = r"^[a-z0-9]([-a-z0-9]*[a-z0-9])?(\.[a-z0-9]([-a-z0-9]*[a-z0-9])?)*$";
const NAMESPACE: &str = r"^[a-z0-9]([-a-z0-9]*[a-z0-9])?$";
const IPV4: &str =
    r"^((25[0-5]|2[0-4][0-9]|[01]?[0-9][0-9]?)\.){3}(25[0-5]|2[0-4][0-9]|[01]?[0-9][0-9]?)$";
const IPV6: &str = r"^([0-9a-fA-F]{1,4}:){7}[0-9a-fA-F]{1,4}$";

/// All texts over `alphabet` of at most `max_len` characters.
fn texts(alphabet: &[char], max_len: usize) -> Vec<String> {
    let mut all = vec![String::new()];
    let mut last = vec![String::new()];
    for _ in 0..max_len {
        let mut next = Vec::new();
        for text in &last {
            for c in alphabet {
                let mut longer = text.clone();
                longer.push(*c);
                next.push(longer);
            }
        }
        all.extend(next.iter().cloned());
        last = next;
    }
    all
}

#[test]
fn pod_names_agree_with_the_pattern() {
    let pattern = Regex::new(POD_NAME).unwrap();
    for text in texts(&['a', 'z', '0', '9', '-', '.', 'A', '_', '\n'], 5) {
        let expected = !text.is_empty() && pattern.is_match(&text);
        assert_eq!(Validator::validate_pod_name(&text).is_ok(), expected, "{:?}", text);
    }
}

#[test]
fn namespaces_agree_with_the_pattern() {
    let pattern = Regex::new(NAMESPACE).unwrap();
    for text in texts(&['a', 'z', '0', '9', '-', '.', 'A', '_', '\n'], 5) {
        let expected = !text.is_empty() && pattern.is_match(&text);
        assert_eq!(Validator::validate_namespace(&text).is_ok(), expected, "{:?}", text);
    }
}

#[test]
fn octets_agree_with_the_pattern() {
    let v4 = Regex::new(IPV4).unwrap();
    let v6 = Regex::new(IPV6).unwrap();
    for octet in texts(&['0', '1', '2', '4', '5', '6', '9', '.', 'a'], 4) {
        for text in [
            format!("{}.1.1.1", octet),
            format!("1.{}.1.1", octet),
            format!("1.1.1.{}", octet),
        ] {
            let expected = v4.is_match(&text) || v6.is_match(&text);
            assert_eq!(Validator::validate_pod_ip(&text).is_ok(), expected, "{:?}", text);
        }
    }
}

#[test]
fn every_octet_value_is_judged_as_by_the_pattern() {
    let v4 = Regex::new(IPV4).unwrap();
    for value in 0..1200u32 {
        for text in [
            format!("{}.0.0.0", value),
            format!("10.{}.0.1", value),
            format!("10.0.0.{}", value),
            format!("{:03}.1.1.1", value),
            format!("{:04}.1.1.1", value),
        ] {
            assert_eq!(Validator::validate_pod_ip(&text).is_ok(), v4.is_match(&text), "{:?}", text);
        }
    }
}

#[test]
fn short_addresses_agree_with_the_patterns() {
    let v4 = Regex::new(IPV4).unwrap();
    let v6 = Regex::new(IPV6).unwrap();
    for text in texts(&['1', '9', '.', ':', 'f', 'G'], 7) {
        let expected = !text.is_empty() && (v4.is_match(&text) || v6.is_match(&text));
        assert_eq!(Validator::validate_pod_ip(&text).is_ok(), expected, "{:?}", text);
    }
}

#[test]
fn groups_agree_with_the_pattern() {
    let v6 = Regex::new(IPV6).unwrap();
    for group in texts(&['0', '9', 'a', 'f', 'A', 'F', 'g', ':', '.'], 5) {
        for text in [
            format!("{}:2:3:4:5:6:7:8", group),
            format!("1:2:3:{}:5:6:7:8", group),
            format!("1:2:3:4:5:6:7:{}", group),
        ] {
            assert_eq!(Validator::validate_pod_ip(&text).is_ok(), v6.is_match(&text), "{:?}", text);
        }
    }
}
