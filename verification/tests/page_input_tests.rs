use browser_rpass::page_inputs::{
    find_input_element_with_candidate_ids, find_input_element_with_type, find_password_input_element,
    find_username_input_element, password_candidate_ids, username_candidate_ids, CandidateElement,
    FieldLocation, InputElementType,
};

fn types(v: &[&str]) -> Vec<String> {
    v.iter().map(|s| s.to_string()).collect()
}

#[test]
fn input_types_are_named_as_in_html() {
    assert_eq!(InputElementType::Text.to_string(), "text");
    assert_eq!(InputElementType::Email.to_string(), "email");
    assert_eq!(InputElementType::Password.to_string(), "password");
}

#[test]
fn the_usual_ids_are_tried_in_order() {
    let u = username_candidate_ids();
    assert_eq!(u.len(), 12);
    assert_eq!(u[0], "username");
    assert_eq!(u[11], "identifierId");
    assert_eq!(password_candidate_ids(), vec!["password", "pass", "pwd", "secret", "token", "auth"]);
}

#[test]
fn inputs_of_a_type_are_listed_in_order() {
    let t = types(&["text", "password", "email", "password"]);
    assert_eq!(find_input_element_with_type(&t, InputElementType::Password), Some(vec![1, 3]));
    assert_eq!(find_input_element_with_type(&types(&["text"]), InputElementType::Email), None);
}

#[test]
fn the_first_present_candidate_counts_only_if_it_is_an_input() {
    assert_eq!(find_input_element_with_candidate_ids(&vec![CandidateElement::Absent, CandidateElement::Input, CandidateElement::Input]), Some(1));
    assert_eq!(find_input_element_with_candidate_ids(&vec![CandidateElement::Absent, CandidateElement::Other, CandidateElement::Input]), None);
    assert_eq!(find_input_element_with_candidate_ids(&vec![CandidateElement::Absent, CandidateElement::Absent]), None);
}

#[test]
fn the_password_field_is_found_by_type_first() {
    let found = vec![CandidateElement::Input];
    assert!(matches!(find_password_input_element(&types(&["text", "password"]), &found), Some(FieldLocation::Input(1))));
    assert!(matches!(find_password_input_element(&types(&["text"]), &found), Some(FieldLocation::Candidate(0))));
    assert!(find_password_input_element(&types(&["text"]), &vec![CandidateElement::Other]).is_none());
}

#[test]
fn the_username_field_is_found_by_id_first() {
    let t = types(&["email"]);
    assert!(matches!(find_username_input_element(&t, &vec![CandidateElement::Absent, CandidateElement::Input]), Some(FieldLocation::Candidate(1))));
    assert!(matches!(find_username_input_element(&t, &vec![CandidateElement::Other]), Some(FieldLocation::Input(0))));
    assert!(find_username_input_element(&types(&["text"]), &vec![CandidateElement::Absent]).is_none());
}
