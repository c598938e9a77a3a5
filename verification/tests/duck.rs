use exercises::duck::{
    get_ducks, AnyDuck, Duck, FlightfulDuck, FlightlessDuck, ALREADY_SWIMMING, NOT_SWIMMING,
};

fn donald() -> FlightlessDuck {
    FlightlessDuck { name: "Donald".to_string(), swimming: false }
}

fn roger() -> FlightfulDuck {
    FlightfulDuck { name: "Roger".to_string(), swimming: false, flying: false }
}

#[test]
fn ducks_quack_in_their_own_way() {
    assert_eq!(donald().quack(), "Donald says quack but they can't fly :(");
    assert_eq!(roger().quack(), "Roger says quack but they also can fly ;)");
}

#[test]
fn ducks_describe_themselves() {
    let mut duck = donald();
    assert_eq!(duck.describe(), "FlightlessDuck named Donald and swim status is false");
    assert_eq!(duck.start_swiming(), Ok(()));
    assert_eq!(duck.describe(), "FlightlessDuck named Donald and swim status is true");
    let mut duck = roger();
    assert_eq!(
        duck.describe(),
        "FlightfulDuck named Roger and swim status is false and flight status is false"
    );
    duck.flying = true;
    assert_eq!(duck.start_swiming(), Ok(()));
    assert_eq!(
        duck.describe(),
        "FlightfulDuck named Roger and swim status is true and flight status is true"
    );
}

#[test]
fn flightless_duck_swims_once_at_a_time() {
    let mut duck = donald();
    assert!(!duck.is_swimming());
    assert_eq!(duck.stop_swiming(), Err("Can't stop swimming. Not swimming."));
    assert!(!duck.is_swimming());
    assert_eq!(duck.start_swiming(), Ok(()));
    assert!(duck.is_swimming());
    assert_eq!(duck.start_swiming(), Err("Can't start swimming. Already swimming."));
    assert!(duck.is_swimming());
    assert_eq!(duck.stop_swiming(), Ok(()));
    assert!(!duck.is_swimming());
    assert_eq!(duck.name, "Donald");
}

#[test]
fn flightful_duck_swims_once_at_a_time() {
    let mut duck = roger();
    duck.flying = true;
    assert_eq!(duck.stop_swiming(), Err(NOT_SWIMMING));
    assert_eq!(duck.start_swiming(), Ok(()));
    assert!(duck.is_swimming());
    assert_eq!(duck.start_swiming(), Err(ALREADY_SWIMMING));
    assert_eq!(duck.stop_swiming(), Ok(()));
    assert!(!duck.is_swimming());
    assert!(duck.is_flying());
    assert_eq!(duck.name, "Roger");
}

#[test]
fn is_flying_reads_the_flag() {
    let mut duck = roger();
    assert!(!duck.is_flying());
    duck.flying = true;
    assert!(duck.is_flying());
}

#[test]
fn get_ducks_gives_donald_and_roger() {
    let ducks = get_ducks();
    assert_eq!(ducks.len(), 2);
    match &ducks[0] {
        AnyDuck::Flightless(duck) => {
            assert_eq!(duck.name, "Donald");
            assert!(!duck.swimming);
        }
        other => panic!("the first duck is {:?}", other),
    }
    match &ducks[1] {
        AnyDuck::Flightful(duck) => {
            assert_eq!(duck.name, "Roger");
            assert!(!duck.swimming);
            assert!(!duck.flying);
        }
        other => panic!("the second duck is {:?}", other),
    }
}

#[test]
fn any_duck_acts_as_the_duck_it_holds() {
    let mut ducks = get_ducks();
    assert_eq!(ducks[0].quack(), "Donald says quack but they can't fly :(");
    assert_eq!(ducks[1].quack(), "Roger says quack but they also can fly ;)");
    assert_eq!(ducks[0].describe(), "FlightlessDuck named Donald and swim status is false");
    for duck in ducks.iter_mut() {
        assert!(!duck.is_swimming());
        assert_eq!(duck.stop_swiming(), Err(NOT_SWIMMING));
        assert_eq!(duck.start_swiming(), Ok(()));
        assert_eq!(duck.start_swiming(), Err(ALREADY_SWIMMING));
        assert!(duck.is_swimming());
    }
    assert_eq!(
        ducks[1].describe(),
        "FlightfulDuck named Roger and swim status is true and flight status is false"
    );
}

fn quack_of(duck: &dyn Duck) -> String {
    duck.quack()
}

#[test]
fn ducks_answer_through_the_trait() {
    assert_eq!(quack_of(&donald()), "Donald says quack but they can't fly :(");
    assert_eq!(quack_of(&roger()), "Roger says quack but they also can fly ;)");
}
