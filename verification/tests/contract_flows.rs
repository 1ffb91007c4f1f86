use travel_id::{Address, TravelIDContract};

fn addr(s: &str) -> Address {
    Address::from_strkey(String::from(s))
}

fn text(s: &str) -> String {
    String::from(s)
}

/// The ledger time of every request in these scenarios.
const NOW: u64 = 0;

fn setup() -> (TravelIDContract, Address) {
    let mut client = TravelIDContract::new();
    let admin = addr("GADMIN");
    client.initialize(admin.clone()).unwrap();
    (client, admin)
}

fn register_place(client: &mut TravelIDContract, admin: &Address) {
    client
        .register_place(
            admin.clone(),
            text("hoi-an-001"),
            text("Hội An"),
            text("VN"),
            text("city"),
            text("Phố cổ di sản UNESCO"),
            NOW,
        )
        .unwrap();
}

#[test]
fn test_register_traveler() {
    let (mut client, _) = setup();
    let t = addr("GTRAVELER");
    client.register_traveler(t.clone(), text("Nguyen Van A"), text("VN"), NOW).unwrap();
    let p = client.get_traveler(t).unwrap();
    assert_eq!(p.total_checkins, 0);
    assert_eq!(p.trust_score, 500);
}

#[test]
fn test_full_checkin_flow() {
    let (mut client, admin) = setup();
    let traveler = addr("GTRAVELER");
    let provider = addr("GPROVIDER");
    client.register_traveler(traveler.clone(), text("Du khach"), text("VN"), NOW).unwrap();
    client
        .register_provider(provider.clone(), text("Hoi An Tours"), text("tour"), text("VN"), text("LIC-001"), NOW)
        .unwrap();
    client.verify_provider(admin.clone(), provider.clone(), NOW).unwrap();
    register_place(&mut client, &admin);

    let id = client
        .confirm_checkin(provider.clone(), traveler.clone(), text("hoi-an-001"), text("Tuyet voi!"), NOW)
        .unwrap();
    assert_eq!(id, 1);

    let p = client.get_traveler(traveler).unwrap();
    assert_eq!(p.total_checkins, 1);
}

#[test]
fn test_review_requires_real_checkin() {
    let (mut client, _) = setup();
    let traveler = addr("GTRAVELER");
    let provider = addr("GPROVIDER");
    client.register_traveler(traveler.clone(), text("T"), text("VN"), NOW).unwrap();
    client.register_provider(provider.clone(), text("P"), text("tour"), text("VN"), text("X"), NOW).unwrap();
    let r = client.leave_review(traveler.clone(), provider.clone(), 0u64, 5u32, text("Gia mao"), NOW);
    assert!(r.is_err());
}

#[test]
fn test_unverified_provider_blocked() {
    let (mut client, admin) = setup();
    let traveler = addr("GTRAVELER");
    let provider = addr("GPROVIDER");
    client.register_traveler(traveler.clone(), text("T"), text("VN"), NOW).unwrap();
    client
        .register_provider(provider.clone(), text("Chua xac minh"), text("tour"), text("VN"), text("NONE"), NOW)
        .unwrap();
    register_place(&mut client, &admin);
    let r = client.confirm_checkin(provider.clone(), traveler.clone(), text("hoi-an-001"), text(""), NOW);
    assert!(r.is_err());
}

#[test]
fn test_payment_reputation_score() {
    let (mut client, admin) = setup();
    let user = addr("GUSER");
    client.register_traveler(user.clone(), text("U"), text("VN"), NOW).unwrap();
    client.record_payment_success(admin.clone(), user.clone(), NOW).unwrap();
    let rep = client.get_payment_rep(user).unwrap();
    assert_eq!(rep.total_deposits, 1);
    assert_eq!(rep.score, 100);
}

#[test]
fn test_trust_score_computation() {
    let (mut client, admin) = setup();
    let traveler = addr("GTRAVELER");
    let provider = addr("GPROVIDER");
    client.register_traveler(traveler.clone(), text("T"), text("VN"), NOW).unwrap();
    client.register_provider(provider.clone(), text("P"), text("tour"), text("VN"), text("LIC"), NOW).unwrap();
    client.verify_provider(admin.clone(), provider.clone(), NOW).unwrap();
    register_place(&mut client, &admin);
    client.confirm_checkin(provider.clone(), traveler.clone(), text("hoi-an-001"), text(""), NOW).unwrap();
    let score = client.update_trust_score(traveler).unwrap();
    // 1 checkin * 4 = 4 pts + 0 reviews + 100*3 = 300 payment pts = 304
    assert_eq!(score, 304);
}

