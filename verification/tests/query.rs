use api_free_reseau_fr::query::{
    error_response, get, get_departement_status, get_dslam_status, get_nra_status, get_status,
    read_status, request_url, respond, status_from_transfer, status_response,
};
use api_free_reseau_fr::{
    ApiError, DSLAMStatus, Departement, DepartementStatus, NRAStatus, Request, Response,
    TargetType, BASE_URL, DSLAM, NRA,
};

const UP: &str = "<methodResponse><params><param><value><boolean>1</boolean></value></param></params></methodResponse>";

const DOWN: &str = "<methodResponse><params><param><value><boolean>0</boolean></value></param></params></methodResponse>";

const UNKNOWN: &str = "<methodResponse><params><param><value>Erreur !</value></param></params></methodResponse>";

fn body(text: &str) -> Result<String, reqwest::Error> {
    Ok(text.to_string())
}

fn failed_transfer() -> Result<String, reqwest::Error> {
    match reqwest::Client::new().get("not a url").build() {
        Ok(_) => panic!("a request was built from a text that is no URL"),
        Err(failure) => Err(failure),
    }
}

#[test]
fn url_is_base_slash_target() {
    assert_eq!(BASE_URL, "https://www.free-reseau.fr/outils/api");
    assert_eq!(
        request_url("mon75"),
        "https://www.free-reseau.fr/outils/api/mon75"
    );
    assert_eq!(
        request_url("mon75-1"),
        "https://www.free-reseau.fr/outils/api/mon75-1"
    );
    assert_eq!(
        request_url(&Departement::new(75).to_string()),
        "https://www.free-reseau.fr/outils/api/75"
    );
    assert_eq!(request_url(""), "https://www.free-reseau.fr/outils/api/");
    assert_eq!(
        request_url("a b/é?"),
        "https://www.free-reseau.fr/outils/api/a b/é?"
    );
}

#[test]
fn nra_up_is_ok() {
    let nra = NRA::from("mon75");
    match get_nra_status(&nra, body(UP)) {
        Ok(status) => assert_eq!(status, NRAStatus::OK),
        Err(error) => panic!("{}", error.to_string()),
    }
    match get_nra_status(&nra, body(DOWN)) {
        Ok(status) => assert_eq!(status, NRAStatus::DEGRADED),
        Err(error) => panic!("{}", error.to_string()),
    }
}

#[test]
fn dslam_without_boolean_is_nonexistent() {
    let dslam = DSLAM::from("mon75-1");
    match get_dslam_status(&dslam, body(UNKNOWN)) {
        Err(ApiError::NonExistent(target_type, target)) => {
            assert_eq!(target_type, TargetType::DSLAM);
            assert_eq!(target, "mon75-1");
        }
        _ => panic!("a body without a boolean gave no NonExistent"),
    }
    match get_dslam_status(&dslam, body("<value>Erreur !</value>")) {
        Err(ApiError::NonExistent(target_type, target)) => {
            assert_eq!(target_type, TargetType::DSLAM);
            assert_eq!(target, "mon75-1");
        }
        _ => panic!("a body without a boolean gave no NonExistent"),
    }
}

#[test]
fn dslam_up_and_down() {
    let dslam = DSLAM::new("mon", 75, 2);
    assert!(matches!(
        get_dslam_status(&dslam, body(UP)),
        Ok(DSLAMStatus::ONLINE)
    ));
    assert!(matches!(
        get_dslam_status(&dslam, body(DOWN)),
        Ok(DSLAMStatus::OFFLINE)
    ));
}

#[test]
fn departement_up_down_and_unknown() {
    let departement = Departement::new(75);
    assert!(matches!(
        get_departement_status(&departement, body(UP)),
        Ok(DepartementStatus::OK)
    ));
    assert!(matches!(
        get_departement_status(&departement, body(DOWN)),
        Ok(DepartementStatus::DEGRADED)
    ));
    match get_departement_status(&Departement::new(1337), body(UNKNOWN)) {
        Err(ApiError::NonExistent(target_type, target)) => {
            assert_eq!(target_type, TargetType::DEPARTEMENT);
            assert_eq!(target, "1337");
        }
        _ => panic!("a body without a boolean gave no NonExistent"),
    }
}

#[test]
fn bare_status_of_a_request() {
    let request = Request::from(NRA::new("mon", 75));
    assert!(matches!(get_status(&request, body(UP)), Ok(true)));
    assert!(matches!(get_status(&request, body(DOWN)), Ok(false)));
    match get_status(&request, body(UNKNOWN)) {
        Err(ApiError::NonExistent(target_type, target)) => {
            assert_eq!(target_type, TargetType::NRA);
            assert_eq!(target, "mon75");
        }
        _ => panic!("a body without a boolean gave no NonExistent"),
    }
    match get_status(&request, body("")) {
        Err(ApiError::NonExistent(target_type, target)) => {
            assert_eq!(target_type, TargetType::NRA);
            assert_eq!(target, "mon75");
        }
        _ => panic!("an empty body gave no NonExistent"),
    }
}

#[test]
fn status_read_from_a_body() {
    assert!(matches!(
        read_status(UP, TargetType::DSLAM, "mon75-1"),
        Ok(true)
    ));
    assert!(matches!(
        read_status(DOWN, TargetType::DSLAM, "mon75-1"),
        Ok(false)
    ));
    match read_status("<boolean>11</boolean>", TargetType::DEPARTEMENT, "75") {
        Err(ApiError::NonExistent(target_type, target)) => {
            assert_eq!(target_type, TargetType::DEPARTEMENT);
            assert_eq!(target, "75");
        }
        _ => panic!("a body without a boolean gave no NonExistent"),
    }
}

#[test]
fn failed_transfer_is_handed_on() {
    let expected = match failed_transfer() {
        Err(failure) => failure.to_string(),
        Ok(_) => unreachable!(),
    };
    match status_from_transfer(failed_transfer(), TargetType::NRA, "mon75") {
        Err(ApiError::Reqwest(failure)) => {
            assert!(failure.is_builder());
            assert_eq!(failure.to_string(), expected);
        }
        _ => panic!("a failed transfer gave no Reqwest error"),
    }
    assert!(matches!(
        get_status(&Request::from(NRA::from("mon75")), failed_transfer()),
        Err(ApiError::Reqwest(_))
    ));
    assert!(matches!(
        get_nra_status(&NRA::from("mon75"), failed_transfer()),
        Err(ApiError::Reqwest(_))
    ));
    assert!(matches!(
        get_dslam_status(&DSLAM::from("mon75-1"), failed_transfer()),
        Err(ApiError::Reqwest(_))
    ));
    assert!(matches!(
        get_departement_status(&Departement::new(75), failed_transfer()),
        Err(ApiError::Reqwest(_))
    ));
}

#[test]
fn error_in_words() {
    assert_eq!(
        ApiError::NonExistent(TargetType::DSLAM, "mon75-1".to_string()).to_string(),
        "Nonexistent DSLAM was provided `mon75-1`"
    );
    assert_eq!(
        ApiError::NonExistent(TargetType::NRA, "xyz75".to_string()).to_string(),
        "Nonexistent NRA was provided `xyz75`"
    );
    assert_eq!(
        ApiError::NonExistent(TargetType::DEPARTEMENT, "1337".to_string()).to_string(),
        "Nonexistent DEPARTEMENT was provided `1337`"
    );
    assert_eq!(
        ApiError::NonExistent(TargetType::NRA, String::new()).to_string(),
        "Nonexistent NRA was provided ``"
    );
}

#[test]
fn transport_error_in_words() {
    let failure = match failed_transfer() {
        Err(failure) => failure,
        Ok(_) => unreachable!(),
    };
    let expected = failure.to_string();
    assert_eq!(expected, "builder error");
    let error = ApiError::from(failure);
    assert!(matches!(error, ApiError::Reqwest(_)));
    assert_eq!(error.to_string(), expected);
}

#[test]
fn response_for_each_kind() {
    assert_eq!(
        get(&Request::from(NRA::from("mon75")), body(UP)),
        Response::NRA {
            target: "mon75".to_string(),
            target_status: NRAStatus::OK,
        }
    );
    assert_eq!(
        get(&Request::from(DSLAM::from("mon75-1")), body(DOWN)),
        Response::DSLAM {
            target: "mon75-1".to_string(),
            target_status: DSLAMStatus::OFFLINE,
        }
    );
    assert_eq!(
        get(&Request::from(Departement::new(75)), body(UP)),
        Response::DEPARTEMENT {
            target: "75".to_string(),
            target_status: DepartementStatus::OK,
        }
    );
}

#[test]
fn response_embeds_the_error() {
    assert_eq!(
        get(&Request::from(DSLAM::from("xyz75-1")), body(UNKNOWN)),
        Response::Error {
            target: "xyz75-1".to_string(),
            target_type: TargetType::DSLAM,
            error_message: "Nonexistent DSLAM was provided `xyz75-1`".to_string(),
        }
    );
    assert_eq!(
        get(&Request::from(Departement::new(1337)), failed_transfer()),
        Response::Error {
            target: "1337".to_string(),
            target_type: TargetType::DEPARTEMENT,
            error_message: "builder error".to_string(),
        }
    );
}

#[test]
fn response_from_an_outcome() {
    let request = Request::from(NRA::from("mon75"));
    assert_eq!(
        respond(&request, Ok(false)),
        Response::NRA {
            target: "mon75".to_string(),
            target_status: NRAStatus::DEGRADED,
        }
    );
    assert_eq!(
        respond(
            &request,
            Err(ApiError::NonExistent(TargetType::DSLAM, "other".to_string()))
        ),
        Response::Error {
            target: "mon75".to_string(),
            target_type: TargetType::NRA,
            error_message: "Nonexistent DSLAM was provided `other`".to_string(),
        }
    );
    assert_eq!(
        status_response(&Request::from(DSLAM::from("mon75-1")), true),
        Response::DSLAM {
            target: "mon75-1".to_string(),
            target_status: DSLAMStatus::ONLINE,
        }
    );
    assert_eq!(
        error_response(&Request::from(Departement::new(75)), "no route".to_string()),
        Response::Error {
            target: "75".to_string(),
            target_type: TargetType::DEPARTEMENT,
            error_message: "no route".to_string(),
        }
    );
}

#[test]
fn batch_reports_each_item_in_order() {
    let batch = vec![
        (Request::from(DSLAM::new("mon", 75, 1)), body(UP)),
        (Request::from(NRA::new("xyz", 75)), body(UNKNOWN)),
        (Request::from(Departement::new(76)), failed_transfer()),
        (Request::from(NRA::new("mon", 75)), body(DOWN)),
    ];
    let mut responses = Vec::new();
    for (request, transfer) in batch {
        responses.push(get(&request, transfer));
    }
    assert_eq!(
        responses,
        vec![
            Response::DSLAM {
                target: "mon75-1".to_string(),
                target_status: DSLAMStatus::ONLINE,
            },
            Response::Error {
                target: "xyz75".to_string(),
                target_type: TargetType::NRA,
                error_message: "Nonexistent NRA was provided `xyz75`".to_string(),
            },
            Response::Error {
                target: "76".to_string(),
                target_type: TargetType::DEPARTEMENT,
                error_message: "builder error".to_string(),
            },
            Response::NRA {
                target: "mon75".to_string(),
                target_status: NRAStatus::DEGRADED,
            },
        ]
    );
}
