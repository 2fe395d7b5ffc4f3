use rjini::error::JiniError;
use rjini::jini::Jini;
use rjini::RJini;

#[test]
fn check_creates_empty_jini() -> Result<(), JiniError> {
    let j = Jini::empty();
    assert_eq!("", j.body);
    Ok(())
}

#[test]
fn check_creates_empty_rjini() -> Result<(), JiniError> {
    let j = RJini::empty();
    assert_eq!("", j.xpath);
    Ok(())
}

#[test]
fn checks_creates_rjini_from() -> Result<(), JiniError> {
    let j = RJini::from("parent/child");
    assert!(j.xpath.contains("child"));
    Ok(())
}

#[test]
fn creates_rjini_from_complex_xpath() -> Result<(), JiniError> {
    let rj = RJini::from("/bookstore/book[price>35]/price");
    assert_eq!(vec!["bookstore", "book[price>35]", "price"], rj.nodes()?);
    Ok(())
}

#[test]
fn checks_adds_node() -> Result<(), JiniError> {
    let j = RJini::from("parent/");
    let j = j.add_node("child")?;
    let j = j.add_node("toys")?;
    assert!(j.xpath.contains("child/") && j.xpath.contains("toys/"));
    Ok(())
}

#[test]
fn checks_error_on_add_wrong_node() -> Result<(), JiniError> {
    let actual = RJini::empty()
        .add_node("so me no de")
        .unwrap_err()
        .message();
    assert!(actual.contains("The \"so me no de\" contain spaces"));
    Ok(())
}

#[test]
fn checks_removes_node() -> Result<(), JiniError> {
    let j = RJini::empty()
        .add_node("Ruby")?
        .add_node("is")?
        .add_node("not")?
        .add_node("my")?
        .add_node("dog")?
        .remove_node("not");
    assert_eq!("Ruby/is/my/dog/", j.xpath);
    Ok(())
}

#[test]
fn checks_replaces_node() -> Result<(), JiniError> {
    let j = RJini::empty()
        .add_node("Ruby")?
        .add_node("is")?
        .add_node("a")?
        .add_node("bad")?
        .add_node("dog")?
        .replace_node("bad", "good")?
        .xpath;
    assert_eq!("Ruby/is/a/good/dog/", j);
    Ok(())
}

#[test]
fn checks_error_on_replaces_node() -> Result<(), JiniError> {
    let actual = RJini::empty()
        .add_node("test")?
        .replace_node("test", "not test")
        .unwrap_err()
        .message();
    assert!(actual.contains("The \"not test\" contain spaces"));
    Ok(())
}

#[test]
fn checks_does_nodes() -> Result<(), JiniError> {
    let x = RJini::from("parent/child[@key=\"value\"]/next[3]");
    assert_eq!(
        vec!["parent", "child[@key=\"value\"]", "next[3]"],
        x.nodes()?
    );
    Ok(())
}

#[test]
fn checks_adds_property() -> Result<(), JiniError> {
    let x = RJini::from("some/xpath/");
    assert!(x.add_property("pr")?.xpath.contains("pr()"));
    Ok(())
}

#[test]
fn checks_removes_property() -> Result<(), JiniError> {
    let x = RJini::from("some/xpath/");
    assert!(x.add_property("pr")?.xpath.contains("pr()"));
    let x = x.remove_property("pr").xpath;
    assert!(!x.contains("pr"));
    Ok(())
}

#[test]
fn adds_new_attr() -> Result<(), JiniError> {
    let rj = RJini::from("parent/child").add_attr("k", "v")?;
    assert_eq!(rj.as_str(), "parent/child[k=\"v\"]");
    Ok(())
}
