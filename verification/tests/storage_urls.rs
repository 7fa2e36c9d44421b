use recording_analyzer::storage::{
    audio_file_uri, firebase_storage_url_to_gcs_uri, gcs_uri_from_parts,
};

#[test]
fn firebase_url_with_token_maps_to_gs() {
    let url = "https://firebasestorage.googleapis.com/v0/b/my-app.appspot.com/o/recordings%2Fmeeting%201.m4a?alt=media&token=abc";
    assert_eq!(
        firebase_storage_url_to_gcs_uri(url),
        Some("gs://my-app.appspot.com/recordings/meeting 1.m4a".to_string())
    );
}

#[test]
fn firebase_url_with_fragment_stops_at_hash() {
    let url = "https://firebasestorage.googleapis.com/v0/b/bkt/o/a.wav#frag";
    assert_eq!(firebase_storage_url_to_gcs_uri(url), Some("gs://bkt/a.wav".to_string()));
}

#[test]
fn non_firebase_url_is_not_converted() {
    assert_eq!(firebase_storage_url_to_gcs_uri("https://example.com/audio.mp3"), None);
    assert_eq!(
        audio_file_uri("https://example.com/audio.mp3"),
        "https://example.com/audio.mp3"
    );
}

#[test]
fn firebase_url_without_object_separator_is_not_converted() {
    let url = "https://firebasestorage.googleapis.com/v0/b/bucket/x/file";
    assert_eq!(firebase_storage_url_to_gcs_uri(url), None);
}

#[test]
fn empty_bucket_or_object_is_not_converted() {
    assert_eq!(
        firebase_storage_url_to_gcs_uri("https://firebasestorage.googleapis.com/v0/b//o/file"),
        None
    );
    assert_eq!(
        firebase_storage_url_to_gcs_uri("https://firebasestorage.googleapis.com/v0/b/bkt/o/?alt=media"),
        None
    );
}

#[test]
fn invalid_utf8_after_decoding_is_not_converted() {
    let url = "https://firebasestorage.googleapis.com/v0/b/bkt/o/%FF%FE";
    assert_eq!(firebase_storage_url_to_gcs_uri(url), None);
}

#[test]
fn percent_sign_without_hex_digits_is_kept() {
    let url = "https://firebasestorage.googleapis.com/v0/b/bkt/o/100%zz";
    assert_eq!(firebase_storage_url_to_gcs_uri(url), Some("gs://bkt/100%zz".to_string()));
}

#[test]
fn audio_file_uri_uses_gs_for_firebase() {
    let url = "https://firebasestorage.googleapis.com/v0/b/bkt/o/calls%2Fx.mp3?alt=media";
    assert_eq!(audio_file_uri(url), "gs://bkt/calls/x.mp3");
}

#[test]
fn gcs_uri_from_parts_requires_both() {
    assert_eq!(gcs_uri_from_parts("b", Some("o".to_string())), Some("gs://b/o".to_string()));
    assert_eq!(gcs_uri_from_parts("", Some("o".to_string())), None);
    assert_eq!(gcs_uri_from_parts("b", Some(String::new())), None);
    assert_eq!(gcs_uri_from_parts("b", None), None);
}
