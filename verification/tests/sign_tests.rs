use base64::Engine;

use httpdrs::errors::EngineError;
use httpdrs::jwtsign::{reader_parse, HttpdMetaReader};
use httpdrs::range::{Args, Range};

fn make_token(proto: &str, path: &str, prefix: &str) -> String {
    let packed = rmp_serde::to_vec(&(proto, path, prefix)).unwrap();
    let download_path = base64::engine::general_purpose::STANDARD.encode(&packed);
    let header = base64::engine::general_purpose::URL_SAFE_NO_PAD.encode(b"{\"alg\":\"HS256\"}");
    let claims_json = format!("{{\"download_path\":\"{}\"}}", download_path);
    let claims = base64::engine::general_purpose::URL_SAFE_NO_PAD.encode(claims_json.as_bytes());
    format!("{}.{}.c2ln", header, claims)
}

#[test]
fn decode_round_trip() {
    let token = make_token("s3", "a.bin", "p");
    let reader = reader_parse(token).unwrap();
    assert_eq!(reader.proto, "s3");
    assert_eq!(reader.path, "a.bin");
    assert_eq!(reader.prefix, "p");
}

#[test]
fn decode_rejects_garbage() {
    assert_eq!(reader_parse(String::from("not-a-token")).unwrap_err(), EngineError::Decode);
    assert_eq!(reader_parse(String::new()).unwrap_err(), EngineError::Decode);
}

#[test]
fn decode_rejects_bad_claim() {
    // A well-formed JWT whose download_path is not valid base64.
    let header = base64::engine::general_purpose::URL_SAFE_NO_PAD.encode(b"{\"alg\":\"HS256\"}");
    let claims = base64::engine::general_purpose::URL_SAFE_NO_PAD
        .encode(b"{\"download_path\":\"%%%\"}");
    let token = format!("{}.{}.c2ln", header, claims);
    assert_eq!(reader_parse(token).unwrap_err(), EngineError::Decode);
}

#[test]
fn relative_and_absolute_paths() {
    let token = make_token("s3", "a.bin", "p");
    let reader = reader_parse(token).unwrap();
    assert_eq!(reader.local_relative_path(), "p/a.bin");
    assert_eq!(reader.local_absolute_path("data"), "data/p/a.bin");
    assert_eq!(reader.local_absolute_path_str("data"), "data/p/a.bin");
}

#[test]
fn empty_prefix_keeps_path_bare() {
    let reader = HttpdMetaReader {
        proto: String::from("s3"),
        path: String::from("a.bin"),
        prefix: String::new(),
    };
    assert_eq!(reader.local_relative_path(), "a.bin");
    assert_eq!(reader.local_absolute_path("data"), "data/a.bin");
}

#[test]
fn part_path_embeds_index_hash_and_name() {
    let reader = HttpdMetaReader {
        proto: String::from("s3"),
        path: String::from("a.bin"),
        prefix: String::from("p"),
    };
    let hash = format!("{:x}", md5::compute("data/p/a.bin".as_bytes()));
    let expected = format!("tmp/2__{}__a.bin.bin", hash);
    assert_eq!(reader.local_part_path("data", 2, "tmp"), expected);
}

#[test]
fn part_path_is_stable_across_calls() {
    let reader = HttpdMetaReader {
        proto: String::from("s3"),
        path: String::from("deep/nested/file.tar"),
        prefix: String::from("set"),
    };
    let first = reader.local_part_path("data", 0, "tmp");
    let second = reader.local_part_path("data", 0, "tmp");
    assert_eq!(first, second);
    let hash = format!("{:x}", md5::compute("data/set/deep/nested/file.tar".as_bytes()));
    assert_eq!(first, format!("tmp/0__{}__file.tar.bin", hash));
}

#[test]
fn range_path_single_part_is_final_path() {
    let token = make_token("s3", "a.bin", "p");
    let reader = std::sync::Arc::new(reader_parse(token).unwrap());
    let args = Args::new(String::from("data"), String::from("tmp"));
    let range = Range::new(0, 0, 1024, 1, String::from("T"), args);
    let (path, total) = range.path(reader);
    assert_eq!(total, 1);
    assert_eq!(path, "data/p/a.bin");
}

#[test]
fn range_path_multi_part_is_scratch_path() {
    let token = make_token("s3", "a.bin", "p");
    let reader = std::sync::Arc::new(reader_parse(token).unwrap());
    let args = Args::new(String::from("data"), String::from("tmp"));
    let range = Range::new(1, 5_242_880, 10_485_760, 3, String::from("T"), args);
    let (path, total) = range.path(reader);
    assert_eq!(total, 3);
    let hash = format!("{:x}", md5::compute("data/p/a.bin".as_bytes()));
    assert_eq!(path, format!("tmp/1__{}__a.bin.bin", hash));
}
