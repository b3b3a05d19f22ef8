use beacon_verifier::contract::{
    execute, instantiate, migrate, query, query_config, respond, verified_response, verify,
};
use beacon_verifier::error::ContractError;
use beacon_verifier::msg::{ExecuteMsg, InstantiateMsg, MigrateMsg, QueryMsg};
use beacon_verifier::response::{Attribute, Response};
use beacon_verifier::state::Config;
use beacon_verifier::verification::{VerificationError, VerificationOutcome};

const SIGNATURE: &str = "a75c1b05446c28e9babb078b5e4887761a416b52a2f484bcb388be085236edacc72c69347cb533da81e01fe26f1be34708855b48171280c6660e2eb736abe214740ce696042879f01ba5613808a041b54a80a43dadb5a6be8ed580be7e3f546e";
const MESSAGE: &str = "8332743e3c325954435e289d757183e9d3d0b64055cf7f8610b0823d6fd2c0ec2a9ce274fd2eec85875225f89dcdda710fb11cce31d0fa2b4620bbb2a2147502f921ceb95d29b402b55b69b609e51bb759f94c32b7da12cb91f347b12740cb52";
// Signature of another round of the same beacon: a point, but not of this message.
const OTHER_SIGNATURE: &str = "8d61d9100567de44682506aea1a7a6fa6e5491cd27a0a0ed349ef6910ac5ac20ff7bc3e09d7c046566c9f7f3c6f3b10104990e7cb424998203d8f7de586fb7fa5f60045417a432684f85093b06ca91c769f0e7ca19268375e659c2a2352b4655";

fn attribute(key: &str, value: &str) -> Attribute {
    Attribute { key: key.to_string(), value: value.to_string() }
}

#[test]
fn verify_test() {
    let init_msg = InstantiateMsg {};
    let (config, _) = instantiate(init_msg);

    let signature: Vec<u8> = hex::decode("a75c1b05446c28e9babb078b5e4887761a416b52a2f484bcb388be085236edacc72c69347cb533da81e01fe26f1be34708855b48171280c6660e2eb736abe214740ce696042879f01ba5613808a041b54a80a43dadb5a6be8ed580be7e3f546e").unwrap();
    let g2_binary = hex::decode("8332743e3c325954435e289d757183e9d3d0b64055cf7f8610b0823d6fd2c0ec2a9ce274fd2eec85875225f89dcdda710fb11cce31d0fa2b4620bbb2a2147502f921ceb95d29b402b55b69b609e51bb759f94c32b7da12cb91f347b12740cb52").unwrap();
    println!("{}, {:?}", hex::encode(&signature), g2_binary);
    let msg = ExecuteMsg::Verify {
        signature: signature,
        msg_g2: g2_binary,
        worker: "address".to_string(),
        round: 12323,
    };
    let res = execute(&config, msg).unwrap();
    println!("{:?}", res);
    assert_eq!(3, res.attributes.len());
}

#[test]
fn instantiate_stores_the_drand_key() {
    let (config, response) = instantiate(InstantiateMsg {});
    assert_eq!(
        hex::encode(&config.drand_public_key),
        "868f005eb8e6e4ca0a47c8a77ceaa5309a47978a7c71bc5cce96366b5d7a569937c529eeda66c7293784a9402801af31"
    );
    assert_eq!(config.drand_public_key.len(), 48);
    assert_eq!(response, Response { attributes: vec![] });
}

#[test]
fn verified_round_has_round_randomness_and_worker() {
    let (config, _) = instantiate(InstantiateMsg {});
    let res = verify(
        &config,
        hex::decode(SIGNATURE).unwrap(),
        hex::decode(MESSAGE).unwrap(),
        "address".to_string(),
        12323,
    )
    .unwrap();
    assert_eq!(
        res.attributes,
        vec![
            attribute("round", "12323"),
            attribute("randomness", "FOfYM9oq3y3d2cz8KwAtOX/g8Y0JwyYmk1GEuFja/mY="),
            attribute("worker", "address"),
        ]
    );
}

#[test]
fn round_labels_the_response_only() {
    let (config, _) = instantiate(InstantiateMsg {});
    let first = verify(
        &config,
        hex::decode(SIGNATURE).unwrap(),
        hex::decode(MESSAGE).unwrap(),
        "w".to_string(),
        0,
    )
    .unwrap();
    let second = verify(
        &config,
        hex::decode(SIGNATURE).unwrap(),
        hex::decode(MESSAGE).unwrap(),
        "w".to_string(),
        u64::MAX,
    )
    .unwrap();
    assert_eq!(first.attributes[0], attribute("round", "0"));
    assert_eq!(second.attributes[0], attribute("round", "18446744073709551615"));
    assert_eq!(first.attributes[1], second.attributes[1]);
    assert_eq!(first.attributes[2], second.attributes[2]);
}

#[test]
fn wrong_signature_is_unauthorized() {
    let (config, _) = instantiate(InstantiateMsg {});
    let res = verify(
        &config,
        hex::decode(OTHER_SIGNATURE).unwrap(),
        hex::decode(MESSAGE).unwrap(),
        "address".to_string(),
        12323,
    );
    assert_eq!(res, Err(ContractError::Unauthorized {}));
}

#[test]
fn execute_turns_down_what_verify_turns_down() {
    let (config, _) = instantiate(InstantiateMsg {});
    let msg = ExecuteMsg::Verify {
        signature: hex::decode(OTHER_SIGNATURE).unwrap(),
        msg_g2: hex::decode(MESSAGE).unwrap(),
        worker: "address".to_string(),
        round: 12323,
    };
    assert_eq!(execute(&config, msg), Err(ContractError::Unauthorized {}));
}

#[test]
fn inputs_that_are_no_points_are_invalid_signatures() {
    let (config, _) = instantiate(InstantiateMsg {});
    let short = verify(
        &config,
        hex::decode(SIGNATURE).unwrap()[..95].to_vec(),
        hex::decode(MESSAGE).unwrap(),
        "address".to_string(),
        12323,
    );
    assert_eq!(short, Err(ContractError::InvalidSignature {}));

    let empty_message = verify(
        &config,
        hex::decode(SIGNATURE).unwrap(),
        vec![],
        "address".to_string(),
        12323,
    );
    assert_eq!(empty_message, Err(ContractError::InvalidSignature {}));

    let no_key = Config { drand_public_key: vec![] };
    let res = verify(
        &no_key,
        hex::decode(SIGNATURE).unwrap(),
        hex::decode(MESSAGE).unwrap(),
        "address".to_string(),
        12323,
    );
    assert_eq!(res, Err(ContractError::InvalidSignature {}));
}

#[test]
fn another_key_is_unauthorized() {
    // The generator of the first group is a point, but not this beacon's key.
    let config = Config {
        drand_public_key: hex::decode("97f1d3a73197d7942695638c4fa9ac0fc3688c4f9774b905a14e3a3f171bac586c55e83ff97a1aeffb3af00adb22c6bb").unwrap(),
    };
    let res = verify(
        &config,
        hex::decode(SIGNATURE).unwrap(),
        hex::decode(MESSAGE).unwrap(),
        "address".to_string(),
        12323,
    );
    assert_eq!(res, Err(ContractError::Unauthorized {}));
}

#[test]
fn query_returns_the_configuration() {
    let (config, _) = instantiate(InstantiateMsg {});
    assert_eq!(query(&config, QueryMsg::Config {}), config);
    assert_eq!(query_config(&config), config);

    let other = Config { drand_public_key: vec![1, 2, 3] };
    assert_eq!(query(&other, QueryMsg::Config {}).drand_public_key, vec![1, 2, 3]);
}

#[test]
fn migrate_answers_with_an_empty_response() {
    assert_eq!(migrate(MigrateMsg {}), Response { attributes: vec![] });
}

#[test]
fn response_keeps_the_order_of_its_attributes() {
    let response = Response::new()
        .add_attribute("a", "1".to_string())
        .add_attribute("b", "2".to_string());
    assert_eq!(response.attributes, vec![attribute("a", "1"), attribute("b", "2")]);
    assert_eq!(Response::default(), Response::new());
}

#[test]
fn verified_response_lists_round_randomness_worker() {
    let response = verified_response(7, "cmFuZG9t".to_string(), "someone".to_string());
    assert_eq!(
        response.attributes,
        vec![
            attribute("round", "7"),
            attribute("randomness", "cmFuZG9t"),
            attribute("worker", "someone"),
        ]
    );
}

#[test]
fn respond_encodes_the_randomness_in_base64() {
    let mut randomness = [0u8; 32];
    randomness[0] = 0xfb;
    randomness[31] = 0xff;
    let response = respond(Ok(VerificationOutcome::Valid(randomness)), "w".to_string(), 42).unwrap();
    assert_eq!(
        response.attributes,
        vec![
            attribute("round", "42"),
            attribute("randomness", "+wAAAAAAAAAAAAAAAAAAAAAAAAAAAAAAAAAAAAAAAP8="),
            attribute("worker", "w"),
        ]
    );
}

#[test]
fn respond_turns_down_what_was_not_verified() {
    assert_eq!(
        respond(Ok(VerificationOutcome::Invalid), "w".to_string(), 42),
        Err(ContractError::Unauthorized {})
    );
    let rejection = VerificationError::InvalidPoint {
        field: "message".to_string(),
        reason: "no point".to_string(),
    };
    assert_eq!(respond(Err(rejection), "w".to_string(), 42), Err(ContractError::InvalidSignature {}));
}
