use resext::outcome::Outcome;
use resext::throw_err::{throw_err_if, throw_err_if_with};
use resext::{CtxResult, ErrCtx, ResExt};

#[test]
fn test_core() {
    let error: Result<&str, std::io::Error> = Err(std::io::Error::other("I/O Failed"));

    let ctx = ErrCtx::new(
        std::io::Error::new(std::io::ErrorKind::HostUnreachable, "Host refused to connect"),
        b"Failed to send request".to_vec(),
    );
    println!("{}\n", ctx.to_display_string());
    println!("{}\n", ctx.to_debug_string());

    let ctx: CtxResult<&str, std::io::Error> = error
        .context("Failed to do I/O work.")
        .byte_context(b"Failed to read file.".to_vec())
        .with_context(|| format!("File [{}] failed to open.", "foo.txt"));

    let ctx_err = ctx.as_ref().unwrap_err();

    assert_eq!(
        ctx_err.msg(),
        String::from(
            "Failed to do I/O work.\n- Failed to read file.\n- File [foo.txt] failed to open."
        )
    );

    println!("{}", ctx_err.to_display_string());
}

#[test]
fn test_empty_ctx() {
    let ctx = ErrCtx::new(
        std::io::Error::other("error"),
        b"".to_vec(), // Empty context
    );
    let output = ctx.to_display_string();
    assert!(!output.contains("\n- "));
}

#[test]
fn test_methods() {
    let res: Result<usize, std::io::Error> = Ok(20);
    let res2: Result<&str, std::io::Error> = Ok("ok");

    let value = match res.or_exit(1) {
        Outcome::Value(value) => value,
        Outcome::Exit(_) => panic!("a success asks for no exit"),
    };
    let value2 = match res2.better_expect("Failed to unwrap Result.", 1, true) {
        Outcome::Value(value) => value,
        Outcome::Exit(_) => panic!("a success asks for no exit"),
    };

    assert!(throw_err_if(value.to_string() == value2, "Values aren't unique", 1).is_none());
    assert!(throw_err_if_with(
        value != 20,
        || format!(
            "Value didn't unwrap correctly, it unwrapped into [`{}`] instead of [`20`]",
            value
        ),
        1
    )
    .is_none());
}

#[test]
fn test_long_context_chain() {
    let result: Result<(), std::io::Error> = Err(std::io::Error::other("root"));
    let ctx: ErrCtx<std::io::Error> = match result
        .context("first")
        .context("second")
        .context("third")
        .context("fourth")
        .context("fifth")
    {
        Err(e) => e,
        Ok(_) => panic!("the result is a failure"),
    };

    let msg = ctx.msg();
    assert!(msg.contains("first"));
    assert!(msg.contains("fifth"));
    assert_eq!(msg.matches("\n- ").count(), 4); // 4 delimiters for 5 messages
}

use resext::outcome::failure_line;
use resext::res_ext_methods::better_expect::{better_expect_impl, dyn_expect_impl};
use resext::res_ext_methods::context::{
    byte_context_impl, extra_byte_context_impl, extra_ctx_impl, new_context_impl, push_context,
};
use resext::res_ext_methods::map_err_into::map_err_into_impl;
use resext::res_ext_methods::or_default_context::{
    or_default_context_impl, with_default_context_impl,
};
use resext::res_ext_methods::or_exit::or_exit_impl;
use resext::res_ext_methods::to_option_context::{
    to_option_context_impl, with_option_context_impl,
};
use resext::res_ext_methods::with_context::{extra_with_ctx_impl, with_context_impl};
use resext::throw_err::{return_err_if, return_err_if_with};

/// A plain error with a text of its own.
#[derive(Debug, PartialEq)]
struct Plain(&'static str);

impl core::fmt::Display for Plain {
    fn fmt(&self, f: &mut core::fmt::Formatter) -> core::fmt::Result {
        f.write_str(self.0)
    }
}

/// What `Plain` converts into.
#[derive(Debug, PartialEq)]
struct Wide(String);

impl From<Plain> for Wide {
    fn from(value: Plain) -> Self {
        Wide(value.0.to_uppercase())
    }
}

fn failed<T, E>(res: Result<T, ErrCtx<E>>) -> ErrCtx<E> {
    match res {
        Err(e) => e,
        Ok(_) => panic!("the result is a failure"),
    }
}

#[test]
fn an_error_is_made_of_its_parts() {
    let ctx = ErrCtx::new(Plain("root"), b"while loading".to_vec());
    assert_eq!(ctx.msg, b"while loading");
    assert_eq!(ctx.source, Plain("root"));
    assert_eq!(ctx.msg(), "while loading");
    let bare = ErrCtx::from(Plain("root"));
    assert!(bare.msg.is_empty());
    assert_eq!(bare.source, Plain("root"));
    assert_eq!(bare.msg(), "");
}

#[test]
fn what_an_error_shows() {
    let ctx = ErrCtx::new(Plain("root"), b"while loading".to_vec());
    assert_eq!(ctx.to_display_string(), "while loading\nCaused by: root\n");
    assert_eq!(ctx.to_debug_string(), "while loading\nCaused by: Plain(\"root\")\n");
    assert_eq!(ctx.render("anything"), "while loading\nCaused by: anything\n");
    let bare = ErrCtx::from(Plain("root"));
    assert_eq!(bare.to_display_string(), "root");
    assert_eq!(bare.to_debug_string(), "Plain(\"root\")");
    assert_eq!(bare.render("anything"), "anything");
}

#[test]
fn the_first_context_stands_alone() {
    let err = failed(new_context_impl(Err::<u8, Plain>(Plain("root")), "first"));
    assert_eq!(err.msg, b"first");
    assert_eq!(err.source, Plain("root"));
    let err = failed(byte_context_impl(Err::<u8, Plain>(Plain("root")), vec![1, 2, 255]));
    assert_eq!(err.msg, vec![1, 2, 255]);
    let err = failed(with_context_impl(Err::<u8, Plain>(Plain("root")), || format!("n = {}", 5)));
    assert_eq!(err.msg, b"n = 5");
    assert_eq!(err.source, Plain("root"));
}

#[test]
fn later_context_follows_on_a_new_line() {
    let res = new_context_impl(Err::<u8, Plain>(Plain("root")), "first");
    let res = extra_ctx_impl(res, "second");
    let res = extra_byte_context_impl(res, b"third");
    let res = extra_with_ctx_impl(res, || "fourth".to_string());
    let err = failed(res);
    assert_eq!(err.msg(), "first\n- second\n- third\n- fourth");
    assert_eq!(err.source, Plain("root"));
    assert_eq!(
        err.to_display_string(),
        "first\n- second\n- third\n- fourth\nCaused by: root\n"
    );
}

#[test]
fn an_empty_chain_still_gets_the_line_break() {
    let res: Result<u8, ErrCtx<Plain>> = Err(ErrCtx::from(Plain("root")));
    let err = failed(extra_ctx_impl(res, "only"));
    assert_eq!(err.msg(), "\n- only");
    let mut err = ErrCtx::new(Plain("root"), Vec::new());
    push_context(&mut err, b"");
    assert_eq!(err.msg, b"\n- ");
}

#[test]
fn a_long_message_is_kept_whole() {
    let long: &'static str = Box::leak("é".repeat(5000).into_boxed_str());
    let res = new_context_impl(Err::<u8, Plain>(Plain("root")), "first");
    let err = failed(extra_ctx_impl(res, long));
    assert_eq!(err.msg.len(), 5 + 3 + 10000);
    assert_eq!(err.msg(), format!("first\n- {}", long));
    let mut err = ErrCtx::new(Plain("root"), Vec::with_capacity(4096));
    err.msg.extend_from_slice(b"ab");
    push_context(&mut err, b"cd");
    assert_eq!(err.msg, b"ab\n- cd");
}

#[test]
fn a_success_keeps_its_value() {
    let res = new_context_impl(Ok::<u8, Plain>(7), "unused");
    assert!(matches!(res, Ok(7)));
    let res = extra_ctx_impl(res, "unused");
    let res = extra_byte_context_impl(res, b"unused");
    let res = extra_with_ctx_impl(res, || panic!("computed only on a failure"));
    assert!(matches!(res, Ok(7)));
    let res = with_context_impl(Ok::<u8, Plain>(7), || panic!("computed only on a failure"));
    assert!(matches!(res, Ok(7)));
    let res = byte_context_impl(Ok::<u8, Plain>(7), vec![1]);
    assert!(matches!(res, Ok(7)));
}

#[test]
fn an_error_is_converted() {
    let res: Result<u8, Wide> = map_err_into_impl(Err::<u8, Plain>(Plain("root")));
    assert_eq!(res, Err(Wide("ROOT".to_string())));
    let res: Result<u8, Wide> = map_err_into_impl(Ok::<u8, Plain>(7));
    assert_eq!(res, Ok(7));
}

#[test]
fn the_line_for_a_failure() {
    assert_eq!(failure_line("while loading", "root", true), "while loading: root");
    assert_eq!(failure_line("while loading", "root", false), "while loading");
    assert_eq!(failure_line("", "", true), ": ");
}

#[test]
fn a_failure_asks_to_exit() {
    match or_exit_impl(Err::<u8, Plain>(Plain("root")), 4) {
        Outcome::Exit(plan) => {
            assert_eq!(plan.code, 4);
            assert_eq!(plan.message, None);
        }
        Outcome::Value(_) => panic!("a failure has no value"),
    }
    assert!(matches!(or_exit_impl(Ok::<u8, Plain>(7), 4), Outcome::Value(7)));

    match better_expect_impl(Err::<u8, Plain>(Plain("root")), "while loading", 5, true) {
        Outcome::Exit(plan) => {
            assert_eq!(plan.code, 5);
            assert_eq!(plan.message.as_deref(), Some("while loading: root"));
        }
        Outcome::Value(_) => panic!("a failure has no value"),
    }
    match better_expect_impl(Err::<u8, Plain>(Plain("root")), "while loading", -1, false) {
        Outcome::Exit(plan) => {
            assert_eq!(plan.code, -1);
            assert_eq!(plan.message.as_deref(), Some("while loading"));
        }
        Outcome::Value(_) => panic!("a failure has no value"),
    }
    assert!(matches!(
        better_expect_impl(Ok::<u8, Plain>(7), "unused", 5, true),
        Outcome::Value(7)
    ));

    match dyn_expect_impl(Err::<u8, Plain>(Plain("root")), || format!("step {}", 2), 6, true) {
        Outcome::Exit(plan) => {
            assert_eq!(plan.code, 6);
            assert_eq!(plan.message.as_deref(), Some("step 2: root"));
        }
        Outcome::Value(_) => panic!("a failure has no value"),
    }
    match dyn_expect_impl(Err::<u8, Plain>(Plain("root")), || format!("step {}", 2), 6, false) {
        Outcome::Exit(plan) => assert_eq!(plan.message.as_deref(), Some("step 2")),
        Outcome::Value(_) => panic!("a failure has no value"),
    }
    assert!(matches!(
        dyn_expect_impl(Ok::<u8, Plain>(7), || panic!("computed only on a failure"), 6, true),
        Outcome::Value(7)
    ));
}

#[test]
fn a_failure_with_context_asks_to_exit() {
    let res: CtxResult<u8, Plain> = Err(ErrCtx::new(Plain("root"), b"first".to_vec()));
    match <CtxResult<u8, Plain> as ResExt<u8, Plain>>::better_expect(res, "fatal", 7, true) {
        Outcome::Exit(plan) => {
            assert_eq!(plan.code, 7);
            assert_eq!(plan.message.as_deref(), Some("fatal: first\nCaused by: root\n"));
        }
        Outcome::Value(_) => panic!("a failure has no value"),
    }
    let res: CtxResult<u8, Plain> = Err(ErrCtx::new(Plain("root"), vec![0xFF]));
    match <CtxResult<u8, Plain> as ResExt<u8, Plain>>::better_expect(res, "fatal", 7, false) {
        Outcome::Exit(plan) => assert_eq!(plan.message.as_deref(), Some("fatal")),
        Outcome::Value(_) => panic!("a failure has no value"),
    }
    let res: CtxResult<u8, Plain> = Err(ErrCtx::from(Plain("root")));
    match <CtxResult<u8, Plain> as ResExt<u8, Plain>>::dyn_expect(
        res,
        || "fatal".to_string(),
        8,
        true,
    ) {
        Outcome::Exit(plan) => {
            assert_eq!(plan.code, 8);
            assert_eq!(plan.message.as_deref(), Some("fatal: root"));
        }
        Outcome::Value(_) => panic!("a failure has no value"),
    }
    let res: CtxResult<u8, Plain> = Err(ErrCtx::from(Plain("root")));
    match <CtxResult<u8, Plain> as ResExt<u8, Plain>>::or_exit(res, 9) {
        Outcome::Exit(plan) => {
            assert_eq!(plan.code, 9);
            assert_eq!(plan.message, None);
        }
        Outcome::Value(_) => panic!("a failure has no value"),
    }
    let res: CtxResult<u8, Plain> = Ok(7);
    assert!(matches!(
        <CtxResult<u8, Plain> as ResExt<u8, Plain>>::better_expect(res, "fatal", 7, true),
        Outcome::Value(7)
    ));
}

#[test]
fn a_failure_gives_the_default() {
    let noted = or_default_context_impl(Err::<u8, Plain>(Plain("root")), "using 0", 0, true);
    assert_eq!(noted.value, 0);
    assert_eq!(noted.note.as_deref(), Some("using 0: root"));
    let noted = or_default_context_impl(Err::<u8, Plain>(Plain("root")), "using 0", 0, false);
    assert_eq!(noted.value, 0);
    assert_eq!(noted.note.as_deref(), Some("using 0"));
    let noted = or_default_context_impl(Ok::<u8, Plain>(7), "using 0", 0, true);
    assert_eq!(noted.value, 7);
    assert_eq!(noted.note, None);

    let noted =
        with_default_context_impl(Err::<u8, Plain>(Plain("root")), || "lazy".to_string(), 1, true);
    assert_eq!(noted.value, 1);
    assert_eq!(noted.note.as_deref(), Some("lazy: root"));
    let noted = with_default_context_impl(
        Ok::<u8, Plain>(7),
        || panic!("computed only on a failure"),
        1,
        true,
    );
    assert_eq!(noted.value, 7);
    assert_eq!(noted.note, None);
}

#[test]
fn a_failure_gives_none() {
    let noted = to_option_context_impl(Err::<u8, Plain>(Plain("root")), "skipped", true);
    assert_eq!(noted.value, None);
    assert_eq!(noted.note.as_deref(), Some("skipped: root"));
    let noted = to_option_context_impl(Err::<u8, Plain>(Plain("root")), "skipped", false);
    assert_eq!(noted.value, None);
    assert_eq!(noted.note.as_deref(), Some("skipped"));
    let noted = to_option_context_impl(Ok::<u8, Plain>(7), "skipped", true);
    assert_eq!(noted.value, Some(7));
    assert_eq!(noted.note, None);

    let noted =
        with_option_context_impl(Err::<u8, Plain>(Plain("root")), || "lazy".to_string(), false);
    assert_eq!(noted.value, None);
    assert_eq!(noted.note.as_deref(), Some("lazy"));
    let noted =
        with_option_context_impl(Ok::<u8, Plain>(7), || panic!("computed only on a failure"), true);
    assert_eq!(noted.value, Some(7));
    assert_eq!(noted.note, None);
}

#[test]
fn a_condition_asks_to_exit() {
    match throw_err_if(true, "x is too big", 2) {
        Some(plan) => {
            assert_eq!(plan.code, 2);
            assert_eq!(plan.message.as_deref(), Some("x is too big"));
        }
        None => panic!("the condition holds"),
    }
    assert!(throw_err_if(false, "x is too big", 2).is_none());
    match throw_err_if_with(true, || format!("x={} is too big", 11), 3) {
        Some(plan) => {
            assert_eq!(plan.code, 3);
            assert_eq!(plan.message.as_deref(), Some("x=11 is too big"));
        }
        None => panic!("the condition holds"),
    }
    assert!(throw_err_if_with(false, || panic!("computed only when needed"), 3).is_none());
}

#[test]
fn a_condition_gives_an_error() {
    let err = failed(return_err_if(true, "I/O Error", Plain("Example")));
    assert_eq!(err.msg(), "I/O Error");
    assert_eq!(err.source, Plain("Example"));
    assert!(return_err_if(false, "I/O Error", Plain("Example")).is_ok());
    let err = failed(return_err_if_with(
        true,
        || format!("Operation: {} failed", 4),
        Plain("Example"),
    ));
    assert_eq!(err.msg(), "Operation: 4 failed");
    assert!(return_err_if_with(false, || panic!("computed only when needed"), Plain("Example"))
        .is_ok());
}
