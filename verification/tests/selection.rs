use pxe_proxy::responder::select;
use pxe_proxy::{Architecture, DHCPProxyBuilder, DhcpPxeResponder, Ipv4Address, PxeOffer};

fn table_a_b_c() -> Vec<DhcpPxeResponder> {
    DHCPProxyBuilder::new()
        .add_responder(
            Some(Architecture::BC),
            None,
            Ipv4Address::new(10, 0, 0, 1),
            "A".to_string(),
        )
        .add_responder(
            Some(Architecture::Intelx86PC),
            None,
            Ipv4Address::new(10, 0, 0, 2),
            "B".to_string(),
        )
        .add_responder(
            None,
            Some("iPXE".to_string()),
            Ipv4Address::new(10, 0, 0, 3),
            "C".to_string(),
        )
        .into_responders()
}

fn target(offer: &PxeOffer) -> (Ipv4Address, &str) {
    (offer.target_address, offer.boot_file.as_str())
}

#[test]
fn last_matching_rule_wins_over_earlier_match() {
    let offer = select(&table_a_b_c(), Architecture::Intelx86PC, &"iPXE".to_string());
    assert_eq!(target(&offer), (Ipv4Address::new(10, 0, 0, 3), "C"));
}

#[test]
fn architecture_rule_applies_without_user_class() {
    let table = table_a_b_c();
    let offer = select(&table, Architecture::Intelx86PC, &String::new());
    assert_eq!(target(&offer), (Ipv4Address::new(10, 0, 0, 2), "B"));
    let offer = select(&table, Architecture::BC, &String::new());
    assert_eq!(target(&offer), (Ipv4Address::new(10, 0, 0, 1), "A"));
}

#[test]
fn user_class_rule_applies_to_any_architecture() {
    let offer = select(&table_a_b_c(), Architecture::X86_64, &"iPXE".to_string());
    assert_eq!(target(&offer), (Ipv4Address::new(10, 0, 0, 3), "C"));
}

#[test]
fn no_matching_rule_gives_zero_offer() {
    let offer = select(&table_a_b_c(), Architecture::X86_64, &"other".to_string());
    assert_eq!(target(&offer), (Ipv4Address::new(0, 0, 0, 0), ""));
}

#[test]
fn empty_table_gives_zero_offer() {
    let offer = select(&Vec::new(), Architecture::BC, &"iPXE".to_string());
    assert_eq!(target(&offer), (Ipv4Address::new(0, 0, 0, 0), ""));
    assert_eq!(target(&PxeOffer::zero()), (Ipv4Address::new(0, 0, 0, 0), ""));
}

#[test]
fn rule_without_filters_applies_to_everyone() {
    let table = DHCPProxyBuilder::new()
        .add_responder(
            Some(Architecture::BC),
            None,
            Ipv4Address::new(10, 0, 0, 1),
            "specific".to_string(),
        )
        .add_responder(None, None, Ipv4Address::new(10, 0, 0, 9), "any".to_string())
        .into_responders();
    let offer = select(&table, Architecture::BC, &String::new());
    assert_eq!(target(&offer), (Ipv4Address::new(10, 0, 0, 9), "any"));
    let offer = select(&table, Architecture::Itanium, &"x".to_string());
    assert_eq!(target(&offer), (Ipv4Address::new(10, 0, 0, 9), "any"));
}

#[test]
fn later_rule_overrides_even_when_less_specific() {
    let table = DHCPProxyBuilder::new()
        .add_responder(
            Some(Architecture::BC),
            Some("iPXE".to_string()),
            Ipv4Address::new(10, 0, 0, 1),
            "both".to_string(),
        )
        .add_responder(
            Some(Architecture::BC),
            None,
            Ipv4Address::new(10, 0, 0, 2),
            "arch".to_string(),
        )
        .into_responders();
    let offer = select(&table, Architecture::BC, &"iPXE".to_string());
    assert_eq!(target(&offer), (Ipv4Address::new(10, 0, 0, 2), "arch"));
}

#[test]
fn rule_with_both_filters_needs_both() {
    let table = DHCPProxyBuilder::new()
        .add_responder(
            Some(Architecture::BC),
            Some("iPXE".to_string()),
            Ipv4Address::new(10, 0, 0, 1),
            "both".to_string(),
        )
        .into_responders();
    let hit = select(&table, Architecture::BC, &"iPXE".to_string());
    assert_eq!(target(&hit), (Ipv4Address::new(10, 0, 0, 1), "both"));
    let wrong_class = select(&table, Architecture::BC, &"ipxe".to_string());
    assert_eq!(target(&wrong_class), (Ipv4Address::new(0, 0, 0, 0), ""));
    let wrong_arch = select(&table, Architecture::IA32, &"iPXE".to_string());
    assert_eq!(target(&wrong_arch), (Ipv4Address::new(0, 0, 0, 0), ""));
}

#[test]
fn architectures_agree_by_code() {
    let table = DHCPProxyBuilder::new()
        .add_responder(
            Some(Architecture::Unknown(7)),
            None,
            Ipv4Address::new(10, 0, 0, 1),
            "seven".to_string(),
        )
        .into_responders();
    let rule = &table[0];
    assert!(rule.applies_to(Architecture::BC, &String::new()));
    assert!(!rule.applies_to(Architecture::X86_64, &String::new()));
    let offer = rule.offer();
    assert_eq!(target(&offer), (Ipv4Address::new(10, 0, 0, 1), "seven"));
}

#[test]
fn builder_keeps_rules_in_order() {
    let table = table_a_b_c();
    assert_eq!(table.len(), 3);
    assert_eq!(table[0].offer().boot_file, "A");
    assert_eq!(table[1].offer().boot_file, "B");
    assert_eq!(table[2].offer().boot_file, "C");
    assert!(DHCPProxyBuilder::new().into_responders().is_empty());
}
