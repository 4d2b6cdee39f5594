use esi_universe::esi::{FetchError, Request, Response};
use esi_universe::models::{System, Universe};
use spectral::assert_that;
use spectral::numeric::FloatAssertions;
use spectral::vec::VecAssertions;

const AMY_DATA: &'static [u8] =  br#"{"star_id":40335883,"system_id":30005311,"name":"Amygnon","position":{"x":-2.437652065551942e+17,"y":3.610789959702216e+16,"z":5.16497631623793e+16},"security_status":0.6375686526298523,"constellation_id":20000777,"planets":[{"planet_id":40335884},{"planet_id":40335886,"moons":[40335887]},{"planet_id":40335888,"moons":[40335889]},{"planet_id":40335890,"moons":[40335891]},{"planet_id":40335892,"moons":[40335893]},{"planet_id":40335894,"moons":[40335895,40335896,40335897,40335898,40335899,40335901,40335902,40335903,40335904,40335905,40335906,40335907,40335908,40335909,40335910,40335911]},{"planet_id":40335912,"moons":[40335913,40335914,40335915,40335916,40335917,40335918,40335919,40335920,40335921,40335922,40335923,40335924,40335925,40335926,40335927,40335928,40335929,40335930,40335931,40335932,40335933,40335934]},{"planet_id":40335936,"moons":[40335939,40335940,40335941,40335942,40335943,40335944,40335945,40335946,40335947,40335948,40335950,40335952,40335953,40335954,40335955,40335956,40335957,40335959,40335960,40335961,40335962,40335964]}],"security_class":"D1","stargates":[50007433],"stations":[60011203,60011209,60011530,60011533,60014479]}"#;
const AMY_ID: usize = 30005311;

const PC9_DATA: &'static [u8] = br#"{"system_id":30000142,"name":"PC9-AY","position":{"x":1.0,"y":2.0,"z":3.0},"security_status":-0.5,"stargates":[]}"#;

#[test]
fn parse_ids_test() {
    let data = b"[1, 2, 3]";
    let result = System::parse_ids(data);

    assert!(result.is_ok());
    assert_eq!(result.unwrap(), vec![1,2,3]);
}

#[test]
fn parse_ids_with_invalid_input_test() {
    let data = b"invalid json";
    let result = System::parse_ids(data);

    assert!(result.is_err());
}

#[test]
fn parse_system_test() {
    let result = System::parse(AMY_DATA);

    assert!(result.is_ok());

    let system = result.unwrap();

    assert_eq!(system.system_id, 30005311);
    assert_eq!(system.name, "Amygnon");
    let security_status = f64::from_bits(system.security_status) as f32;
    assert_that(&security_status).is_close_to(0.63, 0.01);
    let x = f64::from_bits(system.position.x);
    assert_that(&x).is_close_to(-2.43e+17, 0.01e+17);
    assert_that(&system.stargates).has_length(1);
}

#[test]
fn parse_system_invalid_input_test() {
    let data = b"invalid json";
    let result = System::parse(data);

    assert!(result.is_err());
}

#[test]
fn universe_new_test() {
    let universe = Universe::new();
    assert!(universe.distinct_names() == 0);
    assert!(universe.distinct_ids() == 0);
}

#[test]
fn fill_system_info_test() {
    let mut universe = Universe::new();
    let system = System::parse(AMY_DATA).unwrap();

    universe.fill_system_info(system);
    assert!(universe.contains_name("Amygnon"));
    assert!(universe.contains_id(30005311));
}

#[test]
fn get_system_by_name_test() {
    let mut universe = Universe::new();
    let system = System::parse(AMY_DATA).unwrap();
    universe.fill_system_info(system);

    let result = universe.get_system_by_name("Amygnon");
    assert!(result.is_ok());
    assert_eq!(result.unwrap().name, "Amygnon");

    assert!(universe.get_system_by_name("Invalid").is_err());
}

#[test]
fn get_system_by_id_test() {
    let mut universe = Universe::new();
    let system = System::parse(AMY_DATA).unwrap();
    universe.fill_system_info(system);

    let result = universe.get_system_by_id(AMY_ID);
    assert!(result.is_ok());
    assert_eq!(result.unwrap().name, "Amygnon")
}

#[test]
fn fetch_universe_test() {
    let client = |request: Request| -> Result<Response, String> {
        match request {
            Request::AllIds => Ok(Response { status: 200, body: b"[30005311, 30000142]".to_vec() }),
            Request::SystemInfo(AMY_ID) => Ok(Response { status: 200, body: AMY_DATA.to_vec() }),
            Request::SystemInfo(_) => Ok(Response { status: 200, body: PC9_DATA.to_vec() }),
        }
    };
    let universe_result: Result<_, FetchError> = Universe::fetch_universe(client);

    let universe = universe_result.unwrap().universe;
    assert!(universe.get_system_by_id(AMY_ID).is_ok());
    assert!(universe.get_system_by_name("PC9-AY").is_ok());
}
