//! The responder table: an ordered list of boot-target rules, and the
//! selection of the offer that answers a client.
//!
//! Rules are read from first to last and every matching rule replaces the
//! offer of the rules before it, so the last matching rule decides.

use vstd::prelude::*;
use crate::address::Ipv4Address;
use crate::protocol::Architecture;

verus! {

/// What a rule says, as plain values: two optional filters and a boot target.
pub struct ResponderRule {
    /// The architecture code a client must report, if the rule asks for one.
    pub architecture: Option<u16>,
    /// The user class a client must report, if the rule asks for one.
    pub user_class: Option<Seq<char>>,
    /// The host that serves the boot file.
    pub target_address: Ipv4Address,
    /// The boot file's name or URL.
    pub boot_file: Seq<char>,
}

/// What an offer says, as plain values.
pub struct OfferView {
    pub target_address: Ipv4Address,
    pub boot_file: Seq<char>,
}

impl ResponderRule {
    /// Whether the rule applies to a client of the given architecture code
    /// and user class: each filter the rule has must agree with the client,
    /// and a rule without filters applies to every client.
    pub open spec fn matches(self, architecture: u16, user_class: Seq<char>) -> bool {
        &&& (self.architecture matches Some(a) ==> a == architecture)
        &&& (self.user_class matches Some(c) ==> c == user_class)
    }

    /// The offer the rule makes.
    pub open spec fn offer(self) -> OfferView {
        OfferView { target_address: self.target_address, boot_file: self.boot_file }
    }
}

/// The offer made when no rule applies: `0.0.0.0` and no boot file.
pub open spec fn zero_offer() -> OfferView {
    OfferView { target_address: Ipv4Address::spec_unspecified(), boot_file: Seq::empty() }
}

/// The offer the table makes to a client: that of the last rule that applies,
/// or the zero offer when none does.
pub open spec fn select_offer(rules: Seq<ResponderRule>, architecture: u16, user_class: Seq<char>)
    -> OfferView
    decreases rules.len(),
{
    if rules.len() == 0 {
        zero_offer()
    } else if rules.last().matches(architecture, user_class) {
        rules.last().offer()
    } else {
        select_offer(rules.drop_last(), architecture, user_class)
    }
}

/// A rule that no later rule overrides decides the offer: if the rule at
/// `index` applies to the client and none after it does, the table offers
/// that rule's target.
pub proof fn lemma_last_match_wins(
    rules: Seq<ResponderRule>,
    architecture: u16,
    user_class: Seq<char>,
    index: int,
)
    requires
        0 <= index < rules.len(),
        rules[index].matches(architecture, user_class),
        forall|j: int| index < j < rules.len() ==> !rules[j].matches(architecture, user_class),
    ensures
        select_offer(rules, architecture, user_class) == rules[index].offer(),
    decreases rules.len(),
{
    if index < rules.len() - 1 {
        let rest = rules.drop_last();
        assert(rest[index] == rules[index]);
        assert forall|j: int| index < j < rest.len() implies !rest[j].matches(
            architecture,
            user_class,
        ) by {
            assert(rest[j] == rules[j]);
        }
        lemma_last_match_wins(rest, architecture, user_class, index);
    }
}

/// A client to whom no rule applies is offered `0.0.0.0` and an empty boot
/// file name.
pub proof fn lemma_no_match_gives_zero_offer(
    rules: Seq<ResponderRule>,
    architecture: u16,
    user_class: Seq<char>,
)
    requires
        forall|j: int| 0 <= j < rules.len() ==> !rules[j].matches(architecture, user_class),
    ensures
        select_offer(rules, architecture, user_class) == zero_offer(),
    decreases rules.len(),
{
    if rules.len() > 0 {
        let rest = rules.drop_last();
        assert forall|j: int| 0 <= j < rest.len() implies !rest[j].matches(
            architecture,
            user_class,
        ) by {
            assert(rest[j] == rules[j]);
        }
        lemma_no_match_gives_zero_offer(rest, architecture, user_class);
    }
}

/// The offer is the zero offer or that of a rule of the table which applies
/// to the client.
pub proof fn lemma_offer_comes_from_table(
    rules: Seq<ResponderRule>,
    architecture: u16,
    user_class: Seq<char>,
)
    ensures
        select_offer(rules, architecture, user_class) == zero_offer() || exists|i: int|
            0 <= i < rules.len() && #[trigger] rules[i].matches(architecture, user_class)
                && select_offer(rules, architecture, user_class) == rules[i].offer(),
    decreases rules.len(),
{
    if rules.len() > 0 {
        if rules.last().matches(architecture, user_class) {
            assert(rules[rules.len() - 1].matches(architecture, user_class));
        } else {
            let rest = rules.drop_last();
            lemma_offer_comes_from_table(rest, architecture, user_class);
            if select_offer(rest, architecture, user_class) != zero_offer() {
                let i = choose|i: int|
                    0 <= i < rest.len() && #[trigger] rest[i].matches(architecture, user_class)
                        && select_offer(rest, architecture, user_class) == rest[i].offer();
                assert(rest[i] == rules[i]);
            }
        }
    }
}

/// One boot-target rule of the responder table.
#[derive(Clone, Debug)]
pub struct DhcpPxeResponder {
    architecture: Option<Architecture>,
    user_class: Option<String>,
    redirect_to: Ipv4Address,
    boot_file: String,
}

impl View for DhcpPxeResponder {
    type V = ResponderRule;

    closed spec fn view(&self) -> ResponderRule {
        ResponderRule {
            architecture: match self.architecture {
                Some(a) => Some(a.spec_code()),
                None => None,
            },
            user_class: match self.user_class {
                Some(c) => Some(c@),
                None => None,
            },
            target_address: self.redirect_to,
            boot_file: self.boot_file@,
        }
    }
}

/// What a table of rules says, rule by rule.
pub open spec fn rules_of(responders: Seq<DhcpPxeResponder>) -> Seq<ResponderRule> {
    responders.map_values(|r: DhcpPxeResponder| r@)
}

impl DhcpPxeResponder {
    /// A rule that sends the clients it applies to to `boot_file` on
    /// `redirect_to`.
    pub fn new(
        architecture: Option<Architecture>,
        user_class: Option<String>,
        redirect_to: Ipv4Address,
        boot_file: String,
    ) -> (responder: DhcpPxeResponder)
        ensures
            responder@ == (ResponderRule {
                architecture: match architecture {
                    Some(a) => Some(a.spec_code()),
                    None => None,
                },
                user_class: match user_class {
                    Some(c) => Some(c@),
                    None => None,
                },
                target_address: redirect_to,
                boot_file: boot_file@,
            }),
    {
        DhcpPxeResponder { architecture, user_class, redirect_to, boot_file }
    }

    /// Whether the rule applies to a client.
    pub fn applies_to(&self, architecture: Architecture, user_class: &String) -> (yes: bool)
        ensures
            yes == self@.matches(architecture.spec_code(), user_class@),
    {
        let architecture_agrees = match self.architecture {
            Some(a) => a.code() == architecture.code(),
            None => true,
        };
        let user_class_agrees = match &self.user_class {
            Some(c) => *c == *user_class,
            None => true,
        };
        architecture_agrees && user_class_agrees
    }

    /// The offer the rule makes.
    pub fn offer(&self) -> (offer: PxeOffer)
        ensures
            offer@ == self@.offer(),
    {
        PxeOffer { target_address: self.redirect_to, boot_file: self.boot_file.clone() }
    }
}

/// Where a client is sent: the host to boot from and the boot file to ask
/// it for.
#[derive(Clone, Debug, PartialEq, Eq)]
pub struct PxeOffer {
    pub target_address: Ipv4Address,
    pub boot_file: String,
}

impl View for PxeOffer {
    type V = OfferView;

    open spec fn view(&self) -> OfferView {
        OfferView { target_address: self.target_address, boot_file: self.boot_file@ }
    }
}

impl PxeOffer {
    /// The offer made when no rule applies.
    pub fn zero() -> (offer: PxeOffer)
        ensures
            offer@ == zero_offer(),
    {
        PxeOffer { target_address: Ipv4Address::unspecified(), boot_file: String::new() }
    }
}

/// Selects the offer for a client of the given architecture and user class:
/// the target of the last rule of the table that applies, the zero offer
/// when none does.
pub fn select(
    responders: &Vec<DhcpPxeResponder>,
    requested_architecture: Architecture,
    requested_user_class: &String,
) -> (offer: PxeOffer)
    ensures
        offer@ == select_offer(
            rules_of(responders@),
            requested_architecture.spec_code(),
            requested_user_class@,
        ),
{
    let ghost rules = rules_of(responders@);
    let ghost architecture = requested_architecture.spec_code();
    let mut offer = PxeOffer::zero();
    let mut i: usize = 0;
    while i < responders.len()
        invariant
            0 <= i <= responders.len(),
            rules == rules_of(responders@),
            architecture == requested_architecture.spec_code(),
            offer@ == select_offer(rules.take(i as int), architecture, requested_user_class@),
        decreases responders.len() - i,
    {
        let responder = &responders[i];
        proof {
            let next = rules.take(i + 1);
            assert(next.drop_last() == rules.take(i as int));
            assert(next.last() == responder@);
        }
        if responder.applies_to(requested_architecture, requested_user_class) {
            offer = responder.offer();
        }
        i = i + 1;
    }
    assert(rules.take(i as int) == rules);
    offer
}

/// Collects the rules of a responder table, in the order in which they are
/// added.
#[derive(Clone, Debug)]
pub struct DHCPProxyBuilder {
    responders: Vec<DhcpPxeResponder>,
}

impl DHCPProxyBuilder {
    /// The rules collected so far, first to last.
    pub closed spec fn rules(self) -> Seq<ResponderRule> {
        rules_of(self.responders@)
    }

    /// A builder without rules.
    pub fn new() -> (builder: DHCPProxyBuilder)
        ensures
            builder.rules() == Seq::<ResponderRule>::empty(),
    {
        DHCPProxyBuilder { responders: Vec::new() }
    }

    /// Adds a rule behind those already there, so that it overrides them
    /// for the clients it applies to.
    pub fn add_responder(
        self,
        architecture: Option<Architecture>,
        user_class: Option<String>,
        redirect_to: Ipv4Address,
        boot_file: String,
    ) -> (builder: DHCPProxyBuilder)
        ensures
            builder.rules() == self.rules().push(
                ResponderRule {
                    architecture: match architecture {
                        Some(a) => Some(a.spec_code()),
                        None => None,
                    },
                    user_class: match user_class {
                        Some(c) => Some(c@),
                        None => None,
                    },
                    target_address: redirect_to,
                    boot_file: boot_file@,
                },
            ),
    {
        let mut responders = self.responders;
        let responder = DhcpPxeResponder::new(architecture, user_class, redirect_to, boot_file);
        responders.push(responder);
        DHCPProxyBuilder { responders }
    }

    /// The rules collected, handed over as a table.
    pub fn into_responders(self) -> (responders: Vec<DhcpPxeResponder>)
        ensures
            rules_of(responders@) == self.rules(),
    {
        self.responders
    }
}

} // verus!
