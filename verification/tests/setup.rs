use amdsev::agent::{HttpResponse, Method};
use amdsev::chain::{is_ca_in_full, is_chain_in_full};
use amdsev::cpu::CoreInfo;
use amdsev::error::Error;
use amdsev::plan::LaunchState;
use amdsev::setup::{Setup, SetupAction, SetupEvent, Waiting};
use amdsev::types::{Build, SevCertConfig, Tee, TeeConfig};
use codicon::{Decoder, Encoder};

const PDH: &str = "010000000010000003100000030000000200000095522057542425d53ac6e94f8f5f2477e6089e1919f11062ac87b4fe\
     3a3fc1ae9ec352f6afc9c134a1b6d5d608490236000000000000000000000000000000000000000000000000036ff19f\
     20ab2ae9841dd2f63617a450b45be0a126d79d71195c5ec44bf44045f4821911b405586997421b11b29bc83e00000000\
     000000000000000000000000000000000000000000000000000000000000000000000000000000000000000000000000\
     000000000000000000000000000000000000000000000000000000000000000000000000000000000000000000000000\
     000000000000000000000000000000000000000000000000000000000000000000000000000000000000000000000000\
     000000000000000000000000000000000000000000000000000000000000000000000000000000000000000000000000\
     000000000000000000000000000000000000000000000000000000000000000000000000000000000000000000000000\
     000000000000000000000000000000000000000000000000000000000000000000000000000000000000000000000000\
     000000000000000000000000000000000000000000000000000000000000000000000000000000000000000000000000\
     000000000000000000000000000000000000000000000000000000000000000000000000000000000000000000000000\
     000000000000000000000000000000000000000000000000000000000000000000000000000000000000000000000000\
     000000000000000000000000000000000000000000000000000000000000000000000000000000000000000000000000\
     000000000000000000000000000000000000000000000000000000000000000000000000000000000000000000000000\
     000000000000000000000000000000000000000000000000000000000000000000000000000000000000000000000000\
     000000000000000000000000000000000000000000000000000000000000000000000000000000000000000000000000\
     000000000000000000000000000000000000000000000000000000000000000000000000000000000000000000000000\
     000000000000000000000000000000000000000000000000000000000000000000000000000000000000000000000000\
     000000000000000000000000000000000000000000000000000000000000000000000000000000000000000000000000\
     000000000000000000000000000000000000000000000000000000000000000000000000000000000000000000000000\
     000000000000000000000000000000000000000000000000000000000000000000000000000000000000000000000000\
     0000000000000000000000000000000000000000000000000000000000000000000000000210000002000000e5b25c29\
     237ad43aa0e2e1bce829b7eca875bca50f02e2fdc51e0a2c224118351790f13ba85169f34d409dadd2cd280900000000\
     00000000000000000000000000000000000000009eb612d9b6d5f8e7bca7f72c6304a5c6ebe1f1b6ebe8460903d2215b\
     858160a711427fbfcb672f7817ade5817564535000000000000000000000000000000000000000000000000000000000\
     000000000000000000000000000000000000000000000000000000000000000000000000000000000000000000000000\
     000000000000000000000000000000000000000000000000000000000000000000000000000000000000000000000000\
     000000000000000000000000000000000000000000000000000000000000000000000000000000000000000000000000\
     000000000000000000000000000000000000000000000000000000000000000000000000000000000000000000000000\
     000000000000000000000000000000000000000000000000000000000000000000000000000000000000000000000000\
     000000000000000000000000000000000000000000000000000000000000000000000000000000000000000000000000\
     000000000000000000000000000000000000000000000000000000000000000000000000000000000000000000000000\
     000000000000000000000000000000000000000000000000000000000010000000000000000000000000000000000000\
     000000000000000000000000000000000000000000000000000000000000000000000000000000000000000000000000\
     000000000000000000000000000000000000000000000000000000000000000000000000000000000000000000000000\
     000000000000000000000000000000000000000000000000000000000000000000000000000000000000000000000000\
     000000000000000000000000000000000000000000000000000000000000000000000000000000000000000000000000\
     000000000000000000000000000000000000000000000000000000000000000000000000000000000000000000000000\
     000000000000000000000000000000000000000000000000000000000000000000000000000000000000000000000000\
     000000000000000000000000000000000000000000000000000000000000000000000000000000000000000000000000\
     000000000000000000000000000000000000000000000000000000000000000000000000000000000000000000000000\
     000000000000000000000000000000000000000000000000000000000000000000000000000000000000000000000000\
     000000000000000000000000000000000000000000000000000000000000000000000000000000000000000000000000\
     0000000000000000000000000000000000000000";

const PEK: &str = "01000000001000000210000002000000020000002b5331da2f7add5ffb24f6366c321fb8fb717367fa0ac4d880cb4437\
     9333007c162d3cc270fe2da64f8c35ba54f262b100000000000000000000000000000000000000000000000097ef43e3\
     36163153ac92f9289a31e09968641d57d27c66898d4fbd21fd7b72f2e80edfd7373ee7ac65f8e8b7539caea200000000\
     000000000000000000000000000000000000000000000000000000000000000000000000000000000000000000000000\
     000000000000000000000000000000000000000000000000000000000000000000000000000000000000000000000000\
     000000000000000000000000000000000000000000000000000000000000000000000000000000000000000000000000\
     000000000000000000000000000000000000000000000000000000000000000000000000000000000000000000000000\
     000000000000000000000000000000000000000000000000000000000000000000000000000000000000000000000000\
     000000000000000000000000000000000000000000000000000000000000000000000000000000000000000000000000\
     000000000000000000000000000000000000000000000000000000000000000000000000000000000000000000000000\
     000000000000000000000000000000000000000000000000000000000000000000000000000000000000000000000000\
     000000000000000000000000000000000000000000000000000000000000000000000000000000000000000000000000\
     000000000000000000000000000000000000000000000000000000000000000000000000000000000000000000000000\
     000000000000000000000000000000000000000000000000000000000000000000000000000000000000000000000000\
     000000000000000000000000000000000000000000000000000000000000000000000000000000000000000000000000\
     000000000000000000000000000000000000000000000000000000000000000000000000000000000000000000000000\
     000000000000000000000000000000000000000000000000000000000000000000000000000000000000000000000000\
     000000000000000000000000000000000000000000000000000000000000000000000000000000000000000000000000\
     000000000000000000000000000000000000000000000000000000000000000000000000000000000000000000000000\
     000000000000000000000000000000000000000000000000000000000000000000000000000000000000000000000000\
     000000000000000000000000000000000000000000000000000000000000000000000000000000000000000000000000\
     00000000000000000000000000000000000000000000000000000000000000000000000001100000020000005415e535\
     158b6fdaa86d9a93d115660d559e69cfaccddb73cb85ffcfef7856f8d588b0c3fa1ee64754c5ee96427a9cda00000000\
     0000000000000000000000000000000000000000040ba28ac7d9401463bbf397d259334c52cb6f307062d946fd6075e4\
     b762075e28e56207f4dd69784b238743f471446c00000000000000000000000000000000000000000000000000000000\
     000000000000000000000000000000000000000000000000000000000000000000000000000000000000000000000000\
     000000000000000000000000000000000000000000000000000000000000000000000000000000000000000000000000\
     000000000000000000000000000000000000000000000000000000000000000000000000000000000000000000000000\
     000000000000000000000000000000000000000000000000000000000000000000000000000000000000000000000000\
     000000000000000000000000000000000000000000000000000000000000000000000000000000000000000000000000\
     000000000000000000000000000000000000000000000000000000000000000000000000000000000000000000000000\
     000000000000000000000000000000000000000000000000000000000000000000000000000000000000000000000000\
     000000000000000000000000000000000000000000000000000000000410000002000000846e900295da9e5cc0f0361a\
     33e9411e737c3036d6504283bab26f1be75b2beded3f0151fcc191522a604866d438067e000000000000000000000000\
     0000000000000000000000002b87bd339de8209ff35a623d70903f41c7a1c4afa927684c3c971c68a999252b17d3be6d\
     1c7559dd1801f5f2cde17d84000000000000000000000000000000000000000000000000000000000000000000000000\
     000000000000000000000000000000000000000000000000000000000000000000000000000000000000000000000000\
     000000000000000000000000000000000000000000000000000000000000000000000000000000000000000000000000\
     000000000000000000000000000000000000000000000000000000000000000000000000000000000000000000000000\
     000000000000000000000000000000000000000000000000000000000000000000000000000000000000000000000000\
     000000000000000000000000000000000000000000000000000000000000000000000000000000000000000000000000\
     000000000000000000000000000000000000000000000000000000000000000000000000000000000000000000000000\
     000000000000000000000000000000000000000000000000000000000000000000000000000000000000000000000000\
     0000000000000000000000000000000000000000";

const OCA: &str = "010000000010000001100000020000000200000069d3d4e9f4b1b2329cd481f60b748aa4d3a15ced40d54bd72ca278e8\
     4cfcdd5542a7847d1c891319df4e6896b0be103c000000000000000000000000000000000000000000000000121318cb\
     c65f8dc478dc36eab474dfade7a2a70c3db1241017758ce3d6d8e4ada5c397e53516cc0cfd7a38ac218e210a00000000\
     000000000000000000000000000000000000000000000000000000000000000000000000000000000000000000000000\
     000000000000000000000000000000000000000000000000000000000000000000000000000000000000000000000000\
     000000000000000000000000000000000000000000000000000000000000000000000000000000000000000000000000\
     000000000000000000000000000000000000000000000000000000000000000000000000000000000000000000000000\
     000000000000000000000000000000000000000000000000000000000000000000000000000000000000000000000000\
     000000000000000000000000000000000000000000000000000000000000000000000000000000000000000000000000\
     000000000000000000000000000000000000000000000000000000000000000000000000000000000000000000000000\
     000000000000000000000000000000000000000000000000000000000000000000000000000000000000000000000000\
     000000000000000000000000000000000000000000000000000000000000000000000000000000000000000000000000\
     000000000000000000000000000000000000000000000000000000000000000000000000000000000000000000000000\
     000000000000000000000000000000000000000000000000000000000000000000000000000000000000000000000000\
     000000000000000000000000000000000000000000000000000000000000000000000000000000000000000000000000\
     000000000000000000000000000000000000000000000000000000000000000000000000000000000000000000000000\
     000000000000000000000000000000000000000000000000000000000000000000000000000000000000000000000000\
     000000000000000000000000000000000000000000000000000000000000000000000000000000000000000000000000\
     000000000000000000000000000000000000000000000000000000000000000000000000000000000000000000000000\
     000000000000000000000000000000000000000000000000000000000000000000000000000000000000000000000000\
     000000000000000000000000000000000000000000000000000000000000000000000000000000000000000000000000\
     0000000000000000000000000000000000000000000000000000000000000000000000000110000002000000bf466ce0\
     40420cd64d985bb072a2134d91cd1029351c5d2565bd0c4b245f6133109fe60dfeb57e8fa41015697c591faa00000000\
     00000000000000000000000000000000000000002c277ce9002f5a5b719f3fd9756106f2d61841d9e2d0b98f6d9608a5\
     ff8fb67568f538b389e9efe681735025dfd2529500000000000000000000000000000000000000000000000000000000\
     000000000000000000000000000000000000000000000000000000000000000000000000000000000000000000000000\
     000000000000000000000000000000000000000000000000000000000000000000000000000000000000000000000000\
     000000000000000000000000000000000000000000000000000000000000000000000000000000000000000000000000\
     000000000000000000000000000000000000000000000000000000000000000000000000000000000000000000000000\
     000000000000000000000000000000000000000000000000000000000000000000000000000000000000000000000000\
     000000000000000000000000000000000000000000000000000000000000000000000000000000000000000000000000\
     000000000000000000000000000000000000000000000000000000000000000000000000000000000000000000000000\
     000000000000000000000000000000000000000000000000000000000010000000000000000000000000000000000000\
     000000000000000000000000000000000000000000000000000000000000000000000000000000000000000000000000\
     000000000000000000000000000000000000000000000000000000000000000000000000000000000000000000000000\
     000000000000000000000000000000000000000000000000000000000000000000000000000000000000000000000000\
     000000000000000000000000000000000000000000000000000000000000000000000000000000000000000000000000\
     000000000000000000000000000000000000000000000000000000000000000000000000000000000000000000000000\
     000000000000000000000000000000000000000000000000000000000000000000000000000000000000000000000000\
     000000000000000000000000000000000000000000000000000000000000000000000000000000000000000000000000\
     000000000000000000000000000000000000000000000000000000000000000000000000000000000000000000000000\
     000000000000000000000000000000000000000000000000000000000000000000000000000000000000000000000000\
     000000000000000000000000000000000000000000000000000000000000000000000000000000000000000000000000\
     0000000000000000000000000000000000000000";

const CEK: &str = "01000000000e0000041000000200000002000000e55b6e37941e810f1f1a716643c68bb84f00b63f66c7fd846a1dc31d\
     206bc503dee3330a5d222383df706706eed9a98f0000000000000000000000000000000000000000000000001f51a64a\
     d014a15fcce70a2d3617a37cdea6a0a140e7782997286341aa778158a982db7d46c4a6dd3bfdad387a5c476000000000\
     000000000000000000000000000000000000000000000000000000000000000000000000000000000000000000000000\
     000000000000000000000000000000000000000000000000000000000000000000000000000000000000000000000000\
     000000000000000000000000000000000000000000000000000000000000000000000000000000000000000000000000\
     000000000000000000000000000000000000000000000000000000000000000000000000000000000000000000000000\
     000000000000000000000000000000000000000000000000000000000000000000000000000000000000000000000000\
     000000000000000000000000000000000000000000000000000000000000000000000000000000000000000000000000\
     000000000000000000000000000000000000000000000000000000000000000000000000000000000000000000000000\
     000000000000000000000000000000000000000000000000000000000000000000000000000000000000000000000000\
     000000000000000000000000000000000000000000000000000000000000000000000000000000000000000000000000\
     000000000000000000000000000000000000000000000000000000000000000000000000000000000000000000000000\
     000000000000000000000000000000000000000000000000000000000000000000000000000000000000000000000000\
     000000000000000000000000000000000000000000000000000000000000000000000000000000000000000000000000\
     000000000000000000000000000000000000000000000000000000000000000000000000000000000000000000000000\
     000000000000000000000000000000000000000000000000000000000000000000000000000000000000000000000000\
     000000000000000000000000000000000000000000000000000000000000000000000000000000000000000000000000\
     000000000000000000000000000000000000000000000000000000000000000000000000000000000000000000000000\
     000000000000000000000000000000000000000000000000000000000000000000000000000000000000000000000000\
     000000000000000000000000000000000000000000000000000000000000000000000000000000000000000000000000\
     0000000000000000000000000000000000000000000000000000000000000000000000001300000001000000e448b7a0\
     f9eaf59fff2206d54b6d97a69f6ab53e4f404456393d24f0c4a78c2807d4f21d6a3f84d06a74ca17d904036c123e4dde\
     8513a30a1ef24cae238667ab51e13da991a1d242eef585bc86b6e6bb95df0a06f5203ee62775a0aa72609cd20dd69667\
     562dc7ec89090a6df702196197e9809e3f6ddf931855caf556d1e0fb3f2643831130b7bd282159daf846712b7f787044\
     6fa4559dd198844ad4a9b2cd31fdf1f3b704f93553fa91977de40d824caf0ba93ca0c52cfdb23968d9d7518ae53648ca\
     92b0becf3e7733fb21090eb909cca5a08a30d267effe737a82a2d617c82d017364f9dc67b2e873829587757a2afcd97c\
     8566b170a6651c00720be1a4000000000000000000000000000000000000000000000000000000000000000000000000\
     000000000000000000000000000000000000000000000000000000000000000000000000000000000000000000000000\
     000000000000000000000000000000000000000000000000000000000000000000000000000000000000000000000000\
     000000000000000000000000000000000000000000000000000000000000000000000000000000000000000000000000\
     000000000000000000000000000000000000000000000000000000000000000000000000000000000000000000000000\
     000000000000000000000000000000000000000000000000000000000010000000000000000000000000000000000000\
     000000000000000000000000000000000000000000000000000000000000000000000000000000000000000000000000\
     000000000000000000000000000000000000000000000000000000000000000000000000000000000000000000000000\
     000000000000000000000000000000000000000000000000000000000000000000000000000000000000000000000000\
     000000000000000000000000000000000000000000000000000000000000000000000000000000000000000000000000\
     000000000000000000000000000000000000000000000000000000000000000000000000000000000000000000000000\
     000000000000000000000000000000000000000000000000000000000000000000000000000000000000000000000000\
     000000000000000000000000000000000000000000000000000000000000000000000000000000000000000000000000\
     000000000000000000000000000000000000000000000000000000000000000000000000000000000000000000000000\
     000000000000000000000000000000000000000000000000000000000000000000000000000000000000000000000000\
     000000000000000000000000000000000000000000000000000000000000000000000000000000000000000000000000\
     0000000000000000000000000000000000000000";

fn bytes(hex: &str) -> Vec<u8> {
    let digits: Vec<u8> = hex.bytes().map(|d| (d as char).to_digit(16).unwrap() as u8).collect();
    digits.chunks(2).map(|pair| pair[0] * 16 + pair[1]).collect()
}

fn exported() -> Vec<u8> {
    let mut out = bytes(PDH);
    out.extend(bytes(PEK));
    out.extend(bytes(OCA));
    out.extend(bytes(CEK));
    out
}

fn vendor_certificates() -> Vec<u8> {
    let chain = sev::certs::ca::Chain::from(sev::Generation::Naples);
    let mut out = Vec::new();
    chain.encode(&mut out, ()).unwrap();
    out
}

fn full_chain() -> Vec<u8> {
    let chain = sev::certs::Chain {
        ca: sev::certs::ca::Chain::from(sev::Generation::Naples),
        sev: sev::certs::sev::Chain::decode(&exported()[..], ()).unwrap(),
    };
    let mut out = Vec::new();
    chain.encode(&mut out, ()).unwrap();
    out
}

fn config(url: &str) -> TeeConfig {
    TeeConfig {
        workload_id: "workload-7".to_string(),
        tee: Tee::Sev,
        tee_data: "{\"vendor_chain\": \"x\"}".to_string(),
        attestation_url: url.to_string(),
    }
}

fn certs(path: &str) -> SevCertConfig {
    SevCertConfig {
        vendor_chain: path.to_string(),
        attestation_server_pubkey: String::new(),
    }
}

/// A setup whose firmware device is open and whose configuration is read.
fn configured(url: &str, path: &str) -> Setup {
    let mut setup = Setup::new(&config(url));
    setup.begin();
    setup.step(SetupEvent::Completed);
    setup.step(SetupEvent::Config(certs(path)));
    setup
}

fn refused(status: u32) -> SetupEvent {
    SetupEvent::Response(HttpResponse {
        status,
        headers: vec![],
        body: b"<html>gone</html>".to_vec(),
    })
}

/// A vendor certificate that announces `bits` bits, cut off after `len` bytes.
fn vendor_certificate(bits: u32, usage: u32, len: usize) -> Vec<u8> {
    let mut out = vec![0u8; 64 + 3 * 512];
    out[0] = 1;
    out[36..40].copy_from_slice(&usage.to_le_bytes());
    out[56..60].copy_from_slice(&bits.to_le_bytes());
    out[60..64].copy_from_slice(&bits.to_le_bytes());
    out.truncate(len);
    out
}

fn naples() -> Option<CoreInfo> {
    Some(CoreInfo { family: Some("23".to_string()), model: Some("1".to_string()) })
}

fn body(bytes: Vec<u8>) -> SetupEvent {
    SetupEvent::Response(HttpResponse { status: 200, headers: vec![], body: bytes })
}

fn io_error() -> std::io::Error {
    std::io::Error::from(std::io::ErrorKind::NotFound)
}

fn challenge(flags: u16) -> Vec<u8> {
    let (cert, _) = sev::certs::sev::Certificate::generate(sev::certs::sev::Usage::PDH).unwrap();
    let start = sev::launch::sev::Start {
        policy: sev::launch::sev::Policy {
            flags: sev::launch::sev::PolicyFlags::from_bits_truncate(flags),
            minfw: sev::Version { major: 0, minor: 17 },
        },
        cert,
        session: sev::launch::sev::Session {
            nonce: [1; 16],
            wrap_tk: [2; 32],
            wrap_iv: [3; 16],
            wrap_mac: [4; 32],
            policy_mac: [5; 32],
        },
    };
    let inner = serde_json::to_string(&kbs_types::SevChallenge {
        id: "sess-42".to_string(),
        start,
    })
    .unwrap();
    let mut outer = serde_json::Map::new();
    outer.insert("extra_params".to_string(), serde_json::Value::String(inner));
    serde_json::to_vec(&serde_json::Value::Object(outer)).unwrap()
}

/// Runs a setup that downloads its chain up to the writing of the cache.
fn downloaded(url: &str) -> Setup {
    let mut setup = Setup::new(&config(url));
    assert!(matches!(setup.begin(), SetupAction::OpenFirmware));
    assert!(matches!(setup.step(SetupEvent::Completed), SetupAction::ParseConfig(_)));
    assert!(matches!(setup.step(SetupEvent::Config(certs(""))), SetupAction::ExportChain));
    assert!(matches!(
        setup.step(SetupEvent::Bytes(exported())),
        SetupAction::FetchIdentifier
    ));
    match setup.step(SetupEvent::Identifier("0A1B2C".to_string())) {
        SetupAction::Send(req) => {
            assert_eq!(req.method, Method::Get);
            assert_eq!(req.url, "https://kdsintf.amd.com/cek/id/0A1B2C");
            assert!(req.headers.is_empty());
        }
        _ => panic!("the endorsement certificate is not downloaded"),
    }
    assert!(matches!(setup.step(body(bytes(CEK))), SetupAction::ReadCpuInfo));
    match setup.step(SetupEvent::Core(naples())) {
        SetupAction::Send(req) => {
            assert_eq!(req.method, Method::Get);
            assert_eq!(
                req.url,
                "https://developer.amd.com/wp-content/resources//ask_ark_naples.cert"
            );
        }
        _ => panic!("the vendor's certificates are not downloaded"),
    }
    match setup.step(body(vendor_certificates())) {
        SetupAction::StoreChain { path, bytes } => {
            assert_eq!(path, "/tmp/libkrun-sev.chain");
            assert_eq!(bytes, full_chain());
        }
        _ => panic!("the chain is not stored"),
    }
    assert_eq!(setup.awaited(), Waiting::Store);
    setup
}

/// Runs a setup with a local chain up to the request for a session.
fn asked(url: &str) -> Setup {
    let mut setup = configured(url, "/etc/sev.chain");
    assert!(matches!(
        setup.step(SetupEvent::Bytes(full_chain())),
        SetupAction::PlatformStatus
    ));
    let build = Build { major: 0, minor: 17, build: 48 };
    assert!(matches!(setup.step(SetupEvent::Status(build)), SetupAction::Send(_)));
    assert_eq!(setup.awaited(), Waiting::Session);
    setup
}

#[test]
fn local_chain_and_local_session_send_nothing() {
    let mut setup = Setup::new(&config(""));
    assert_eq!(setup.awaited(), Waiting::Start);
    assert!(matches!(setup.begin(), SetupAction::OpenFirmware));
    match setup.step(SetupEvent::Completed) {
        SetupAction::ParseConfig(text) => assert_eq!(text, "{\"vendor_chain\": \"x\"}"),
        _ => panic!("the configuration is not read"),
    }
    assert_eq!(setup.awaited(), Waiting::Config);
    match setup.step(SetupEvent::Config(certs("/etc/sev.chain"))) {
        SetupAction::ReadChainFile(path) => assert_eq!(path, "/etc/sev.chain"),
        _ => panic!("the chain file is not read"),
    }
    match setup.step(SetupEvent::Bytes(full_chain())) {
        SetupAction::Ready(sev) => {
            assert_eq!(sev.session_id(), None);
            assert!(!sev.sev_es());
            assert_eq!(sev.launch_state(), LaunchState::Created);
        }
        _ => panic!("no session is derived"),
    }
    assert_eq!(setup.awaited(), Waiting::Nothing);
    assert!(matches!(setup.step(SetupEvent::Completed), SetupAction::Rejected));
}

#[test]
fn downloaded_chain_is_assembled_and_stored() {
    let mut setup = downloaded("");
    assert!(matches!(setup.step(SetupEvent::Completed), SetupAction::Ready(_)));
}

#[test]
fn remote_session_follows_the_broker() {
    let mut setup = configured("https://kbs.example", "/etc/sev.chain");
    assert!(matches!(
        setup.step(SetupEvent::Bytes(full_chain())),
        SetupAction::PlatformStatus
    ));
    let build = Build { major: 0, minor: 17, build: 48 };
    let req = match setup.step(SetupEvent::Status(build)) {
        SetupAction::Send(req) => req,
        _ => panic!("no session is asked for"),
    };
    assert_eq!(req.method, Method::Post);
    assert_eq!(req.url, "https://kbs.example/kbs/v0/auth");
    assert_eq!(
        req.headers,
        vec![
            "Accept: application/json".to_string(),
            "Content-Type: application/json; charset=utf-8".to_string(),
        ]
    );
    let envelope: serde_json::Value = serde_json::from_slice(&req.body).unwrap();
    assert_eq!(envelope.as_object().unwrap().len(), 4);
    assert_eq!(envelope["version"], "0.0.0");
    assert_eq!(envelope["workload_id"], "workload-7");
    assert_eq!(envelope["tee"], "sev");
    let inner: kbs_types::SevRequest =
        serde_json::from_str(envelope["extra_params"].as_str().unwrap()).unwrap();
    assert_eq!(inner.build.version.major, 0);
    assert_eq!(inner.build.version.minor, 17);
    assert_eq!(inner.build.build, 48);
    assert_eq!(inner.workload_id, "workload-7");
    let mut sent = Vec::new();
    inner.chain.encode(&mut sent, ()).unwrap();
    assert_eq!(sent, full_chain());

    let answer = SetupEvent::Response(HttpResponse {
        status: 200,
        headers: vec![b"Set-Cookie: session_id=cookie-1; Path=/\r\n".to_vec()],
        body: challenge(0),
    });
    match setup.step(answer) {
        SetupAction::Ready(mut sev) => {
            assert_eq!(sev.session_id(), Some("sess-42".to_string()));
            assert!(!sev.sev_es());
            assert_eq!(sev.launch_state(), LaunchState::Created);
            match sev.vm_prepare(vec![]) {
                amdsev::launch::Action::Issue(amdsev::launch::Command::Init {
                    encrypted_state: false,
                }) => {}
                _ => panic!("the launch does not begin"),
            }
            sev.step(amdsev::launch::Event::Completed);
            match sev.step(amdsev::launch::Event::Completed) {
                amdsev::launch::Action::Done => {}
                _ => panic!("the preparation does not end"),
            }
            sev.vm_attest(vec![]);
            let m = amdsev::types::Measurement { measure: [0; 32], mnonce: [0; 16] };
            match sev.step(amdsev::launch::Event::Measured(m)) {
                amdsev::launch::Action::Send(req) => assert_eq!(
                    req.headers[2],
                    "Cookie: session_id=cookie-1"
                ),
                _ => panic!("no evidence is sent"),
            }
        }
        _ => panic!("the challenge is not accepted"),
    }
    assert_eq!(setup.awaited(), Waiting::Nothing);
}

#[test]
fn session_blob_and_policy_are_those_of_the_challenge() {
    let mut setup = asked("https://kbs.example");
    match setup.step(body(challenge(5))) {
        SetupAction::Ready(mut sev) => {
            assert!(sev.sev_es());
            match sev.vm_prepare(vec![]) {
                amdsev::launch::Action::Issue(amdsev::launch::Command::Init {
                    encrypted_state: true,
                }) => {}
                _ => panic!("the launch does not begin"),
            }
            match sev.step(amdsev::launch::Event::Completed) {
                amdsev::launch::Action::Issue(amdsev::launch::Command::LaunchStart { start }) => {
                    assert_eq!(start.policy.flags, 5);
                    assert_eq!(start.policy.minfw_major, 0);
                    assert_eq!(start.policy.minfw_minor, 17);
                    let mut blob = vec![1u8; 16];
                    blob.extend([2u8; 32]);
                    blob.extend([3u8; 16]);
                    blob.extend([4u8; 32]);
                    blob.extend([5u8; 32]);
                    assert_eq!(start.session, blob);
                    assert!(sev::certs::sev::Certificate::decode(&start.cert[..], ()).is_ok());
                }
                _ => panic!("the launch does not start"),
            }
        }
        _ => panic!("the challenge is not accepted"),
    }
}

#[test]
fn encrypted_state_follows_the_policy_bit() {
    for (flags, expected) in [(0u16, false), (4, true), (3, false), (7, true), (32, false)] {
        let mut setup = asked("https://kbs.example");
        match setup.step(body(challenge(flags))) {
            SetupAction::Ready(sev) => assert_eq!(sev.sev_es(), expected),
            _ => panic!("the challenge is not accepted"),
        }
    }
}

#[test]
fn failed_download_ends_the_setup() {
    let mut setup = configured("https://kbs.example", "");
    setup.step(SetupEvent::Bytes(exported()));
    setup.step(SetupEvent::Identifier("0A".to_string()));
    assert!(matches!(
        setup.step(SetupEvent::TransportFailed(22)),
        SetupAction::Failed(Error::DownloadCek(22))
    ));
    assert_eq!(setup.awaited(), Waiting::Nothing);
    assert!(matches!(setup.step(SetupEvent::Completed), SetupAction::Rejected));
    assert!(matches!(setup.begin(), SetupAction::Rejected));

    let mut setup = configured("", "");
    setup.step(SetupEvent::Bytes(exported()));
    setup.step(SetupEvent::Identifier("0A".to_string()));
    setup.step(body(bytes(CEK)));
    setup.step(SetupEvent::Core(naples()));
    assert!(matches!(
        setup.step(SetupEvent::TransportFailed(7)),
        SetupAction::Failed(Error::DownloadAskArk(7))
    ));
}

#[test]
fn downloads_that_do_not_decode() {
    let mut setup = configured("", "");
    setup.step(SetupEvent::Bytes(exported()));
    setup.step(SetupEvent::Identifier("0A".to_string()));
    assert!(matches!(
        setup.step(body(b"<html>not found</html>".to_vec())),
        SetupAction::Failed(Error::DecodeCek)
    ));

    let mut setup = configured("", "");
    setup.step(SetupEvent::Bytes(exported()));
    setup.step(SetupEvent::Identifier("0A".to_string()));
    setup.step(body(bytes(CEK)));
    setup.step(SetupEvent::Core(naples()));
    assert!(matches!(
        setup.step(body(vec![1, 2, 3])),
        SetupAction::Failed(Error::DecodeAskArk)
    ));

    let mut setup = configured("", "");
    setup.step(SetupEvent::Bytes(vec![0; 16]));
    setup.step(SetupEvent::Identifier("0A".to_string()));
    setup.step(body(bytes(CEK)));
    setup.step(SetupEvent::Core(naples()));
    assert!(matches!(
        setup.step(body(vendor_certificates())),
        SetupAction::Failed(Error::EncodeChain)
    ));
}

#[test]
fn chain_file_failures() {
    let mut setup = configured("", "/etc/sev.chain");
    assert!(matches!(
        setup.step(SetupEvent::IoFailed(io_error())),
        SetupAction::Failed(Error::OpenChainFile(_))
    ));

    let mut setup = configured("", "/etc/sev.chain");
    assert!(matches!(
        setup.step(SetupEvent::Bytes(exported())),
        SetupAction::Failed(Error::DecodeChain)
    ));
}

#[test]
fn platform_failures() {
    let mut setup = Setup::new(&config(""));
    setup.begin();
    assert!(matches!(
        setup.step(SetupEvent::IoFailed(io_error())),
        SetupAction::Failed(Error::OpenFirmware(_))
    ));

    let mut setup = configured("", "");
    setup.step(SetupEvent::Bytes(exported()));
    assert!(matches!(
        setup.step(SetupEvent::Failed),
        SetupAction::Failed(Error::FetchIdentifier)
    ));

    let mut setup = configured("https://kbs.example", "/etc/sev.chain");
    setup.step(SetupEvent::Bytes(full_chain()));
    assert!(matches!(
        setup.step(SetupEvent::Failed),
        SetupAction::Failed(Error::PlatformStatus)
    ));
}

#[test]
fn processor_failures() {
    let reach = |event: SetupEvent| {
        let mut setup = configured("", "");
        setup.step(SetupEvent::Bytes(exported()));
        setup.step(SetupEvent::Identifier("0A".to_string()));
        setup.step(body(bytes(CEK)));
        setup.step(event)
    };
    assert!(matches!(
        reach(SetupEvent::Core(None)),
        SetupAction::Failed(Error::ReadingCoreData)
    ));
    let unknown = CoreInfo { family: Some("6".to_string()), model: Some("85".to_string()) };
    assert!(matches!(
        reach(SetupEvent::Core(Some(unknown))),
        SetupAction::Failed(Error::UnknownCpuModel)
    ));
    let partial = CoreInfo { family: Some("25".to_string()), model: None };
    assert!(matches!(
        reach(SetupEvent::Core(Some(partial))),
        SetupAction::Failed(Error::InvalidCpuData)
    ));
    assert!(matches!(
        reach(SetupEvent::ProcFailed(procfs::ProcError::Other("unreadable".to_string()))),
        SetupAction::Failed(Error::ReadingCpuData(_))
    ));
    let milan = CoreInfo { family: Some("25".to_string()), model: Some("1".to_string()) };
    match reach(SetupEvent::Core(Some(milan))) {
        SetupAction::Send(req) => assert_eq!(
            req.url,
            "https://developer.amd.com/wp-content/resources//ask_ark_milan.cert"
        ),
        _ => panic!("the vendor's certificates are not downloaded"),
    }
}

#[test]
fn cache_failures() {
    let mut setup = downloaded("");
    assert!(matches!(
        setup.step(SetupEvent::Failed),
        SetupAction::Failed(Error::OpenTmpFile)
    ));
    let mut setup = downloaded("");
    assert!(matches!(
        setup.step(SetupEvent::WriteFailed),
        SetupAction::Failed(Error::EncodeChain)
    ));
    let mut setup = downloaded("https://kbs.example");
    assert!(matches!(setup.step(SetupEvent::Completed), SetupAction::PlatformStatus));
}

#[test]
fn broker_failures() {
    let mut setup = asked("https://kbs.example");
    assert!(matches!(
        setup.step(SetupEvent::TransportFailed(28)),
        SetupAction::Failed(Error::SessionRequest(28))
    ));

    let mut setup = asked("https://kbs.example");
    match setup.step(body(b"not json".to_vec())) {
        SetupAction::Failed(Error::ParseSessionResponse(message)) => {
            assert!(!message.is_empty())
        }
        _ => panic!("a malformed answer is accepted"),
    }

    let mut setup = asked("https://kbs.example");
    assert!(matches!(
        setup.step(body(b"{\"nonce\": \"1\"}".to_vec())),
        SetupAction::Failed(Error::ParseSessionResponse(_))
    ));

    let mut setup = asked("https://kbs.example");
    assert!(matches!(
        setup.step(body(b"{\"extra_params\": \"{}\"}".to_vec())),
        SetupAction::Failed(Error::ParseSessionResponse(_))
    ));
}

#[test]
fn local_session_needs_a_chain_that_verifies() {
    let mut forged = full_chain();
    let last = forged.len() - 600;
    forged[last] ^= 0xff;
    let mut setup = configured("", "/etc/sev.chain");
    match setup.step(SetupEvent::Bytes(forged)) {
        SetupAction::Failed(Error::StartFromSession(_)) | SetupAction::Failed(Error::DecodeChain) => {}
        _ => panic!("a forged chain is accepted"),
    }
}

#[test]
fn setup_refuses_reports_that_do_not_fit() {
    let mut setup = Setup::new(&config(""));
    assert!(matches!(setup.step(SetupEvent::Completed), SetupAction::Rejected));
    setup.begin();
    assert!(matches!(setup.step(SetupEvent::Failed), SetupAction::Rejected));
    assert!(matches!(setup.step(SetupEvent::TransportFailed(1)), SetupAction::Rejected));
    assert_eq!(setup.awaited(), Waiting::Firmware);
    assert!(matches!(setup.step(SetupEvent::Completed), SetupAction::ParseConfig(_)));
    assert!(matches!(setup.step(SetupEvent::Completed), SetupAction::Rejected));
    assert!(matches!(setup.step(SetupEvent::Config(certs(""))), SetupAction::ExportChain));
    assert!(matches!(setup.step(SetupEvent::Completed), SetupAction::Rejected));
    assert_eq!(setup.awaited(), Waiting::Export);
}

#[test]
fn failed_export_is_an_error() {
    let mut setup = configured("", "");
    assert_eq!(setup.awaited(), Waiting::Export);
    assert!(matches!(
        setup.step(SetupEvent::Failed),
        SetupAction::Failed(Error::ExportChain)
    ));
    assert_eq!(setup.awaited(), Waiting::Nothing);
}

#[test]
fn unreadable_configuration_is_an_error() {
    let mut setup = Setup::new(&config(""));
    setup.begin();
    setup.step(SetupEvent::Completed);
    match setup.step(SetupEvent::ConfigFailed("missing field".to_string())) {
        SetupAction::Failed(Error::ParseSevCertConfig(message)) => {
            assert_eq!(message, "missing field")
        }
        _ => panic!("an unreadable configuration is accepted"),
    }
    assert_eq!(setup.awaited(), Waiting::Nothing);
}

#[test]
fn download_answered_with_an_error_status_is_a_failed_download() {
    let mut setup = configured("https://kbs.example", "");
    setup.step(SetupEvent::Bytes(exported()));
    setup.step(SetupEvent::Identifier("0A".to_string()));
    assert!(matches!(
        setup.step(refused(404)),
        SetupAction::Failed(Error::DownloadCek(22))
    ));
    assert_eq!(setup.awaited(), Waiting::Nothing);

    let mut setup = configured("", "");
    setup.step(SetupEvent::Bytes(exported()));
    setup.step(SetupEvent::Identifier("0A".to_string()));
    setup.step(body(bytes(CEK)));
    setup.step(SetupEvent::Core(naples()));
    assert!(matches!(
        setup.step(refused(500)),
        SetupAction::Failed(Error::DownloadAskArk(22))
    ));

    let mut setup = configured("", "");
    setup.step(SetupEvent::Bytes(exported()));
    setup.step(SetupEvent::Identifier("0A".to_string()));
    let mut answer = HttpResponse { status: 400, headers: vec![], body: bytes(CEK) };
    assert!(answer.refused());
    answer.status = 399;
    assert!(!answer.refused());
    assert!(matches!(
        setup.step(SetupEvent::Response(answer)),
        SetupAction::ReadCpuInfo
    ));
}

#[test]
fn broker_answering_with_an_error_status_is_a_failed_request() {
    let mut setup = asked("https://kbs.example");
    let answer = SetupEvent::Response(HttpResponse {
        status: 401,
        headers: vec![b"Set-Cookie: session_id=late".to_vec()],
        body: challenge(0),
    });
    assert!(matches!(
        setup.step(answer),
        SetupAction::Failed(Error::SessionRequest(22))
    ));
}

#[test]
fn vendor_certificates_that_break_off_do_not_decode() {
    let reach = |bundle: Vec<u8>| {
        let mut setup = configured("", "");
        setup.step(SetupEvent::Bytes(exported()));
        setup.step(SetupEvent::Identifier("0A".to_string()));
        setup.step(body(bytes(CEK)));
        setup.step(SetupEvent::Core(naples()));
        setup.step(body(bundle))
    };
    for len in [64, 64 + 1023, 64 + 1024, 64 + 1300, 64 + 1535] {
        assert!(matches!(
            reach(vendor_certificate(4096, 0x13, len)),
            SetupAction::Failed(Error::DecodeAskArk)
        ));
    }
    let mut bundle = vendor_certificate(4096, 0x13, 1600);
    bundle.extend(vendor_certificate(4096, 0, 64 + 1100));
    assert!(matches!(reach(bundle), SetupAction::Failed(Error::DecodeAskArk)));
    let mut bundle = vendor_certificate(2048, 0x13, 832);
    bundle.extend(vendor_certificate(4096, 0, 64 + 1024));
    assert!(matches!(reach(bundle), SetupAction::Failed(Error::DecodeAskArk)));

    let mut bundle = vendor_certificate(4096, 0x13, 1600);
    bundle.extend(vendor_certificate(4096, 0, 1600));
    assert!(matches!(reach(bundle), SetupAction::StoreChain { .. }));
}

#[test]
fn chain_file_that_breaks_off_does_not_decode() {
    let mut file = exported();
    file.extend(vendor_certificate(4096, 0x13, 64 + 1200));
    let mut setup = configured("", "/etc/sev.chain");
    assert!(matches!(
        setup.step(SetupEvent::Bytes(file)),
        SetupAction::Failed(Error::DecodeChain)
    ));

    let mut file = exported();
    file.extend(vendor_certificate(2048, 0x13, 832));
    file.extend(vendor_certificate(4096, 0, 64 + 1500));
    let mut setup = configured("", "/etc/sev.chain");
    assert!(matches!(
        setup.step(SetupEvent::Bytes(file)),
        SetupAction::Failed(Error::DecodeChain)
    ));
}

#[test]
fn in_full_tests() {
    assert!(is_ca_in_full(&[]));
    assert!(is_ca_in_full(&vendor_certificate(2048, 0x13, 100)));
    assert!(is_ca_in_full(&vendor_certificate(4096, 0x13, 63)));
    assert!(!is_ca_in_full(&vendor_certificate(4096, 0x13, 64)));
    assert!(!is_ca_in_full(&vendor_certificate(4096, 0x13, 1599)));
    assert!(is_ca_in_full(&vendor_certificate(4096, 0x13, 1600)));
    assert!(is_ca_in_full(&vendor_certificates()));
    let mut two = vendor_certificate(2048, 0x13, 832);
    two.extend(vendor_certificate(4096, 0, 1599));
    assert!(!is_ca_in_full(&two));
    two.push(0);
    assert!(is_ca_in_full(&two));
    assert!(is_chain_in_full(&full_chain()));
    assert!(is_chain_in_full(&exported()));
    let mut chain = exported();
    chain.extend(vendor_certificate(4096, 0x13, 900));
    assert!(!is_chain_in_full(&chain));
}

#[test]
fn session_request_holds_the_launch_request_as_given() {
    let setup = Setup::new(&config("https://kbs.example"));
    let req = setup.session_request("{\"build\":1}");
    assert_eq!(req.method, Method::Post);
    assert_eq!(req.url, "https://kbs.example/kbs/v0/auth");
    let envelope: serde_json::Value = serde_json::from_slice(&req.body).unwrap();
    assert_eq!(envelope["version"], "0.0.0");
    assert_eq!(envelope["workload_id"], "workload-7");
    assert_eq!(envelope["tee"], "sev");
    assert_eq!(envelope["extra_params"], "{\"build\":1}");
}

#[test]
fn derived_session_holds_a_certificate_and_a_blob() {
    let mut setup = configured("", "/etc/sev.chain");
    match setup.step(SetupEvent::Bytes(full_chain())) {
        SetupAction::Ready(mut sev) => {
            sev.vm_prepare(vec![]);
            match sev.step(amdsev::launch::Event::Completed) {
                amdsev::launch::Action::Issue(amdsev::launch::Command::LaunchStart { start }) => {
                    assert_eq!(start.session.len(), 128);
                    assert!(sev::certs::sev::Certificate::decode(&start.cert[..], ()).is_ok());
                    assert_eq!(start.policy, amdsev::types::Policy::local());
                }
                _ => panic!("the launch does not start"),
            }
        }
        _ => panic!("no session is derived"),
    }
}
