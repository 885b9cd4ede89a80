use leddy_rasp_pi::storage::temporary_file_name;

#[test]
fn temporary_name_hides_the_file_beside_the_original() {
    assert_eq!(temporary_file_name(Some(b"display-config.json")), b".display-config.json.tmp".to_vec());
    assert_eq!(temporary_file_name(Some(b"leddy.json")), b".leddy.json.tmp".to_vec());
    assert_eq!(temporary_file_name(None), b".display-config.json.tmp".to_vec());
}
