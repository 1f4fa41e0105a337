use user_registration::example::{init_file_repository, init_input_message};

#[test]
fn example_request_holds_the_made_up_names() {
    let message = init_input_message();
    assert_eq!(message.get_last_name(), "Last Name Example");
    assert_eq!(message.get_first_name(), "First Name Example");
    assert_eq!(message.get_email(), "email@example.com");
}

#[test]
fn example_repository_is_on_the_example_file() {
    assert_eq!(init_file_repository().get_file_path(), "tmp/example.csv");
}
