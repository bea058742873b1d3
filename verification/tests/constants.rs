use syncyam::constants::{get_agent, SDK_NAME, SDK_VER};

#[test]
fn can_access_constants() {
    println!("SDK_VER: {}", SDK_VER);
    println!("SDK_NAME: {}", SDK_NAME);
}

#[test]
fn can_access_agent() {
    println!("AGENT: {}", get_agent());
}

#[test]
fn agent_is_name_and_version() {
    assert_eq!(get_agent(), format!("{SDK_NAME}-{SDK_VER}"));
}
