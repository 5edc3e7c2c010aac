use rsa::pkcs1::EncodeRsaPrivateKey;
use file::config::{CdnKey, Config};
use file::controllers::{init_upload_response, URL_ROUTE_EXPIRY_SECS, URL_ROUTE_KEY};
use file::dto::upload::{GenerateUploadUrlRequest, GenerateUploadUrlResponse};
use file::services::upload::{ReadPlan, UploadService};
use file::{ServiceError, ServiceResponse};
use std::sync::Arc;

/// A small deterministic generator, so that each run makes the same throwaway key.
struct TestRng(u64);

impl rsa::rand_core::RngCore for TestRng {
    fn next_u32(&mut self) -> u32 {
        self.next_u64() as u32
    }
    fn next_u64(&mut self) -> u64 {
        self.0 ^= self.0 << 13;
        self.0 ^= self.0 >> 7;
        self.0 ^= self.0 << 17;
        self.0
    }
    fn fill_bytes(&mut self, dest: &mut [u8]) {
        for b in dest.iter_mut() {
            *b = self.next_u64() as u8;
        }
    }
    fn try_fill_bytes(&mut self, dest: &mut [u8]) -> Result<(), rsa::rand_core::Error> {
        self.fill_bytes(dest);
        Ok(())
    }
}

impl rsa::rand_core::CryptoRng for TestRng {}

/// A throwaway RSA key, made for the test, in PKCS#1 PEM form.
fn test_key() -> String {
    let key = rsa::RsaPrivateKey::new(&mut TestRng(0x9e37_79b9_7f4a_7c15), 512).unwrap();
    key.to_pkcs1_pem(rsa::pkcs1::LineEnding::LF).unwrap().to_string()
}

fn cloudfront_url(url: &str, key_pair_id: &str, private_key: &str, expires_at: u64) -> String {
    let options = cloudfront_sign::SignedOptions {
        key_pair_id: std::borrow::Cow::from(key_pair_id),
        private_key: std::borrow::Cow::from(private_key),
        date_less_than: expires_at,
        date_greater_than: None,
        ip_address: None,
        resource: Some(std::borrow::Cow::from(url)),
    };
    cloudfront_sign::get_signed_url(url, &options).unwrap()
}

fn client() -> aws_sdk_s3::Client {
    let conf = aws_sdk_s3::Config::builder()
        .behavior_version(aws_sdk_s3::config::BehaviorVersion::latest())
        .region(aws_sdk_s3::config::Region::new("us-east-1"))
        .build();
    aws_sdk_s3::Client::from_conf(conf)
}

fn service(cdn: bool) -> UploadService {
    let cdn_key = if cdn {
        Some(CdnKey { key_id: "KEYID".to_string(), private_key_path: "/keys/cdn.pem".to_string() })
    } else {
        None
    };
    UploadService::new(Config::new(
        client(),
        "my-bucket".to_string(),
        "https://cdn.example.com".to_string(),
        cdn_key,
    ))
}

fn request(name: &str, mimetype: Option<&str>, expiration: Option<u64>) -> GenerateUploadUrlRequest {
    GenerateUploadUrlRequest { name: name.to_string(), mimetype: mimetype.map(|m| m.to_string()), expiration }
}

#[test]
fn upload_defaults_to_sixty_seconds() {
    let plan = service(false).prepare_upload(request("report.pdf", None, None)).unwrap();
    assert_eq!(plan.bucket, "my-bucket");
    assert_eq!(plan.file.key, "report.pdf");
    assert_eq!(plan.file.mimetype, "application/pdf");
    assert_eq!(plan.content_type, None);
    assert_eq!(plan.presigning.validity_secs(), 60);
    assert_eq!(plan.presigning.into_config().expires(), std::time::Duration::from_secs(60));
}

#[test]
fn upload_with_type_sets_content_type() {
    let plan = service(false).prepare_upload(request("report.txt", Some("application/json"), Some(3600))).unwrap();
    assert_eq!(plan.file.key, "report.json");
    assert_eq!(plan.content_type, Some("application/json".to_string()));
    assert_eq!(plan.presigning.validity_secs(), 3600);
    assert_eq!(plan.presigning.into_config().expires(), std::time::Duration::from_secs(3600));
}

#[test]
fn upload_longer_than_a_week_fails() {
    assert_eq!(
        service(false).prepare_upload(request("a.pdf", None, Some(604801))).err(),
        Some(ServiceError::ServerError)
    );
    assert!(service(false).prepare_upload(request("a.pdf", None, Some(604800))).is_ok());
}

#[test]
fn upload_response_gives_public_url() {
    let svc = service(false);
    let plan = svc.prepare_upload(request("report.pdf", None, None)).unwrap();
    let resp = svc.upload_response(&plan.file, "https://signed.example/put".to_string());
    assert_eq!(resp.upload_url, "https://signed.example/put");
    assert_eq!(resp.url, "https://cdn.example.com/report.pdf");
}

#[test]
fn read_without_cdn_presigns_a_get() {
    match service(false).plan_read(URL_ROUTE_KEY, URL_ROUTE_EXPIRY_SECS).unwrap() {
        ReadPlan::PresignGet { bucket, key, presigning } => {
            assert_eq!(bucket, "my-bucket");
            assert_eq!(key, "public/age.txt");
            assert_eq!(presigning.validity_secs(), 300);
            assert_eq!(presigning.into_config().expires(), std::time::Duration::from_secs(300));
        }
        ReadPlan::SignCdn { .. } => panic!("expected a presigned GET"),
    }
}

#[test]
fn read_without_cdn_longer_than_a_week_fails() {
    assert_eq!(service(false).plan_read("a.txt", 604801).err(), Some(ServiceError::ServerError));
}

#[test]
fn read_with_cdn_signs_the_public_url() {
    match service(true).plan_read("/public/age.txt", 300).unwrap() {
        ReadPlan::SignCdn { resource_url, key_pair_id, private_key_path, expires_in_seconds } => {
            assert_eq!(resource_url, "https://cdn.example.com/public/age.txt");
            assert_eq!(key_pair_id, "KEYID");
            assert_eq!(private_key_path, "/keys/cdn.pem");
            assert_eq!(expires_in_seconds, 300);
        }
        ReadPlan::PresignGet { .. } => panic!("expected a CDN signature"),
    }
}

#[test]
fn read_of_broken_url_fails() {
    assert_eq!(service(true).plan_read("http://[::1", 300).err(), Some(ServiceError::ServerError));
}

#[test]
fn cdn_signature_matches_cloudfront() {
    let key = test_key();
    let signed = UploadService::sign_cdn_url("https://example.com", "SOMEKEYPAIRID", &key, 150, 50).unwrap();
    assert!(signed.starts_with("https://example.com?Expires=200&Signature="));
    assert!(signed.ends_with("&Key-Pair-Id=SOMEKEYPAIRID"));
    assert!(signed.len() > "https://example.com?Expires=200&Signature=&Key-Pair-Id=SOMEKEYPAIRID".len());
    assert_eq!(signed, cloudfront_url("https://example.com", "SOMEKEYPAIRID", &key, 200));
}

#[test]
fn cdn_signature_with_query_uses_ampersand() {
    let key = test_key();
    let signed = UploadService::sign_cdn_url("https://example.com?a=b", "SOMEKEYPAIRID", &key, 200, 0).unwrap();
    assert!(signed.starts_with("https://example.com?a=b&Expires=200&Signature="));
    assert!(signed.ends_with("&Key-Pair-Id=SOMEKEYPAIRID"));
    assert_eq!(signed, cloudfront_url("https://example.com?a=b", "SOMEKEYPAIRID", &key, 200));
}

#[test]
fn cdn_signature_with_bad_key_fails() {
    assert_eq!(
        UploadService::sign_cdn_url("https://example.com", "K", "not a key", 0, 10).err(),
        Some(ServiceError::ServerError)
    );
}

#[test]
fn signing_outcome_maps_errors() {
    assert_eq!(UploadService::signed_url_outcome(Ok("u".to_string())), Ok("u".to_string()));
    assert_eq!(
        UploadService::signed_url_outcome(Err(cloudfront_sign::EncodingError::Unknown)),
        Err(ServiceError::ServerError)
    );
}

#[test]
fn upload_route_answers_201_or_server_error() {
    let ok = init_upload_response(Ok(GenerateUploadUrlResponse { upload_url: "p".to_string(), url: "u".to_string() }));
    match ok {
        ServiceResponse::Status(v, code) => {
            assert_eq!(code, 201);
            assert_eq!(v.upload_url, "p");
            assert_eq!(v.url, "u");
        }
        ServiceResponse::Error(_) => panic!("expected 201"),
    }
    match init_upload_response(Err(ServiceError::HttpMessage(400, "x".to_string()))) {
        ServiceResponse::Error(e) => assert_eq!(e, ServiceError::ServerError),
        ServiceResponse::Status(..) => panic!("expected an error"),
    }
}

#[test]
fn result_answers_200_or_its_error() {
    match ServiceResponse::from_result(Ok::<String, ServiceError>("x".to_string())) {
        ServiceResponse::Status(v, code) => {
            assert_eq!(v, "x");
            assert_eq!(code, 200);
        }
        ServiceResponse::Error(_) => panic!("expected 200"),
    }
    match ServiceResponse::<String>::from_result(Err(ServiceError::ServerError)) {
        ServiceResponse::Error(e) => assert_eq!(e, ServiceError::ServerError),
        ServiceResponse::Status(..) => panic!("expected an error"),
    }
}

#[test]
fn reading_the_public_url_signs_the_same_key() {
    let svc = service(true);
    let plan = svc.prepare_upload(request("report.pdf", None, None)).unwrap();
    let resp = svc.upload_response(&plan.file, "https://signed.example/put".to_string());
    match svc.plan_read(&resp.url, 120).unwrap() {
        ReadPlan::SignCdn { resource_url, .. } => assert_eq!(resource_url, resp.url),
        ReadPlan::PresignGet { .. } => panic!("expected a CDN signature"),
    }
}

#[test]
fn read_route_targets_the_fixed_key() {
    assert_eq!(URL_ROUTE_KEY, "public/age.txt");
    assert_eq!(URL_ROUTE_EXPIRY_SECS, 300);
}
