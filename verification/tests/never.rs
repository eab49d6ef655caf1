use tokio_util::Never;

#[derive(Debug, PartialEq)]
struct MyError;

impl From<Never> for MyError {
    fn from(never: Never) -> Self {
        never.into()
    }
}

fn never_fails() -> Result<u32, Never> {
    Ok(7)
}

fn do_stuff() -> Result<u32, MyError> {
    let n = never_fails()?;
    if n > 100 {
        return Err(MyError);
    }
    Ok(n + 1)
}

#[test]
fn never_error_needs_no_handling() {
    let n = match never_fails() {
        Ok(n) => n,
        Err(never) => never.into(),
    };
    assert_eq!(n, 7);
}

#[test]
fn never_converts_into_a_local_error() {
    assert_eq!(do_stuff(), Ok(8));
}

#[test]
fn never_is_zero_sized() {
    assert_eq!(std::mem::size_of::<Never>(), 0);
    assert_eq!(std::mem::size_of::<Result<u32, Never>>(), std::mem::size_of::<u32>());
}

#[test]
fn never_error_branch_has_no_case() {
    let n = match never_fails() {
        Ok(n) => n,
        Err(never) => match never.void {},
    };
    assert_eq!(n, 7);
}
