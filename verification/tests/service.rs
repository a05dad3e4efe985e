use datarepo::handlers::{basic_handler, data_extract_handler, data_state_handler};
use datarepo::model::{Data, DataRepoError};
use datarepo::repo::{MockDataRepo, ProdDataRepo};
use datarepo::state::{AppState, MockState, StateDataRepo};

#[test]
fn test_basic_handler() {
    let res = basic_handler();
    assert_eq!(res.status, 200);
    assert_eq!(res.body, b"{\"id\":100}".to_vec());
}

#[test]
fn test_mocked_data_state_handler() {
    let app_state = AppState { data_repo: MockDataRepo { outcome: Ok(Data { id: 50 }) } };

    let res = data_state_handler(50, &app_state);
    assert_eq!(res.status, 200);
    assert_eq!(res.body, b"{\"id\":50}".to_vec());
}

#[test]
fn test_mocked_extract_handler() {
    let repo = StateDataRepo::from_state(&MockState);

    let res = data_extract_handler(50, repo);
    assert_eq!(res.status, 418);
    assert_eq!(res.body, b"{\"status\":\"teapot\"}".to_vec());
}

#[test]
fn state_handler_serves_low_ids() {
    let app_state = AppState { data_repo: ProdDataRepo };
    let res = data_state_handler(7, &app_state);
    assert_eq!(res.status, 200);
    assert_eq!(res.body, b"{\"id\":7}".to_vec());
}

#[test]
fn state_handler_maps_not_found() {
    let app_state = AppState { data_repo: ProdDataRepo };
    let res = data_state_handler(500, &app_state);
    assert_eq!(res.status, 404);
    assert_eq!(res.body, b"{\"status\":\"not found\"}".to_vec());
}

#[test]
fn state_handler_maps_invalid_request() {
    let app_state = AppState { data_repo: ProdDataRepo };
    let res = data_state_handler(2048, &app_state);
    assert_eq!(res.status, 400);
    assert_eq!(res.body, b"{\"status\":\"bad id\"}".to_vec());
}

#[test]
fn extract_handler_serves_low_ids() {
    let app_state = AppState { data_repo: ProdDataRepo };
    let res = data_extract_handler(3, StateDataRepo::from_state(&app_state));
    assert_eq!(res.status, 200);
    assert_eq!(res.body, b"{\"id\":3}".to_vec());
}

#[test]
fn extract_handler_collapses_not_found_to_teapot() {
    let app_state = AppState { data_repo: ProdDataRepo };
    let res = data_extract_handler(11, StateDataRepo::from_state(&app_state));
    assert_eq!(res.status, 418);
    assert_eq!(res.body, b"{\"status\":\"teapot\"}".to_vec());
}

#[test]
fn extract_handler_collapses_invalid_request_to_teapot() {
    let app_state = AppState { data_repo: ProdDataRepo };
    let res = data_extract_handler(1024, StateDataRepo::from_state(&app_state));
    assert_eq!(res.status, 418);
    assert_eq!(res.body, b"{\"status\":\"teapot\"}".to_vec());
}

#[test]
fn mocked_failure_is_teapot_for_every_id() {
    for id in [0usize, 5, 50, 1023, 1024, usize::MAX] {
        let res = data_extract_handler(id, StateDataRepo::from_state(&MockState));
        assert_eq!(res.status, 418);
        assert_eq!(res.body, b"{\"status\":\"teapot\"}".to_vec());
    }
}

#[test]
fn repeated_requests_yield_identical_responses() {
    let app_state = AppState { data_repo: ProdDataRepo };
    for id in [0usize, 10, 11, 1023, 1024, usize::MAX] {
        let first = data_state_handler(id, &app_state);
        let second = data_state_handler(id, &app_state);
        assert_eq!(first.status, second.status);
        assert_eq!(first.body, second.body);

        let e1 = data_extract_handler(id, StateDataRepo::from_state(&app_state));
        let e2 = data_extract_handler(id, StateDataRepo::from_state(&app_state));
        assert_eq!(e1.status, e2.status);
        assert_eq!(e1.body, e2.body);
    }
}
