//! Exceptions of managed callbacks, rendered for the guest.
//!
//! A callback that throws ends the guest call with a trap. The trap carries the exception as
//! text: the class, the message, the chain of causes and the stack frames.

use vstd::prelude::*;
use vstd::string::StringExecFns;
use crate::error::BridgeError;

verus! {

/// A thrown managed exception, as plain values.
#[derive(Debug, PartialEq, Eq)]
pub struct JavaThrowable {
    /// Canonical name of the exception's class.
    pub class_name: String,
    /// The exception's message, if it has one.
    pub message: Option<String>,
    /// The exception that caused this one, if there is one.
    pub cause: Option<Box<JavaThrowable>>,
    /// The stack frames, outermost call last, each as the runtime prints it; `None` for an
    /// exception without a stack trace, and for a frame that prints as nothing.
    pub stack_trace: Option<Vec<Option<String>>>,
}

/// The mathematical content of a [`JavaThrowable`].
pub struct ThrowableView {
    pub class_name: Seq<char>,
    pub message: Option<Seq<char>>,
    pub cause: Option<Box<ThrowableView>>,
    pub stack_trace: Option<Seq<Option<Seq<char>>>>,
}

/// The frames of a stack trace, each with its text.
pub open spec fn frames_view(frames: Seq<Option<String>>) -> Seq<Option<Seq<char>>> {
    frames.map_values(
        |frame: Option<String>|
            match frame {
                Some(text) => Some(text@),
                None => None,
            },
    )
}

/// The mathematical content of a thrown exception and of its causes.
pub open spec fn throwable_view(throwable: JavaThrowable) -> ThrowableView
    decreases throwable,
{
    ThrowableView {
        class_name: throwable.class_name@,
        message: match throwable.message {
            Some(text) => Some(text@),
            None => None,
        },
        cause: match throwable.cause {
            Some(cause) => Some(Box::new(throwable_view(*cause))),
            None => None,
        },
        stack_trace: match throwable.stack_trace {
            Some(frames) => Some(frames_view(frames@)),
            None => None,
        },
    }
}

impl View for JavaThrowable {
    type V = ThrowableView;

    open spec fn view(&self) -> ThrowableView {
        throwable_view(*self)
    }
}

/// The lines of the first `count` stack frames: a tab, the frame, a line end; nothing for a
/// frame without text.
pub open spec fn spec_frames(frames: Seq<Option<Seq<char>>>, count: int) -> Seq<char>
    decreases count,
{
    if count <= 0 {
        Seq::empty()
    } else {
        spec_frames(frames, count - 1) + match frames[count - 1] {
            Some(text) => "\t"@ + text + "\n"@,
            None => Seq::empty(),
        }
    }
}

/// The line that names an exception: its class, and its message if it has one.
pub open spec fn spec_headline(throwable: ThrowableView) -> Seq<char> {
    match throwable.message {
        Some(message) => throwable.class_name + ": "@ + message + "\n"@,
        None => throwable.class_name + "\n"@,
    }
}

/// The report of an exception: the report of its cause, if it has one, behind the word
/// `cause: `; then the line that names the exception; then its stack frames, one to a line.
pub open spec fn spec_report(throwable: ThrowableView) -> Seq<char>
    decreases throwable,
{
    (match throwable.cause {
        Some(cause) => "cause: "@ + spec_report(*cause),
        None => Seq::empty(),
    }) + spec_headline(throwable) + (match throwable.stack_trace {
        Some(frames) => spec_frames(frames, frames.len() as int),
        None => Seq::empty(),
    })
}

/// What stands for a thrown reference that is null.
pub open spec fn spec_null_report() -> Seq<char> {
    "null throwable thrown"@
}

/// What the guest is told of a thrown exception.
pub open spec fn spec_caught(report: Seq<char>) -> Seq<char> {
    "WASM caught an exception: "@ + report
}

impl JavaThrowable {
    /// The report of the exception: class, message, causes and stack frames.
    pub fn report(&self) -> (text: String)
        ensures
            text@ == spec_report(self@),
        decreases self,
    {
        let mut text = String::new();
        match &self.cause {
            Some(cause) => {
                text.append("cause: ");
                let reported = cause.report();
                text.append(reported.as_str());
            },
            None => {},
        }
        text.append(self.class_name.as_str());
        match &self.message {
            Some(message) => {
                text.append(": ");
                text.append(message.as_str());
                text.append("\n");
            },
            None => {
                text.append("\n");
            },
        }
        match &self.stack_trace {
            Some(frames) => {
                let ghost head = text@;
                let mut i: usize = 0;
                while i < frames.len()
                    invariant
                        i <= frames.len(),
                        text@ == head + spec_frames(frames_view(frames@), i as int),
                    decreases frames.len() - i,
                {
                    match &frames[i] {
                        Some(frame) => {
                            text.append("\t");
                            text.append(frame.as_str());
                            text.append("\n");
                        },
                        None => {},
                    }
                    i = i + 1;
                }
            },
            None => {},
        }
        text
    }
}

/// The report of what was thrown, where the thrown reference may be null.
pub fn report_thrown(throwable: Option<&JavaThrowable>) -> (text: String)
    ensures
        text@ == match throwable {
            Some(t) => spec_report(t@),
            None => spec_null_report(),
        },
{
    match throwable {
        Some(throwable) => throwable.report(),
        None => String::from_str("null throwable thrown"),
    }
}

/// The failure that a thrown exception is to the guest: the trap text is the report of the
/// exception.
pub fn exception_to_err(throwable: Option<&JavaThrowable>) -> (err: BridgeError)
    ensures
        err matches BridgeError::ManagedException(text) && text@ == spec_caught(
            match throwable {
                Some(t) => spec_report(t@),
                None => spec_null_report(),
            },
        ),
{
    let mut text = String::from_str("WASM caught an exception: ");
    let reported = report_thrown(throwable);
    text.append(reported.as_str());
    BridgeError::ManagedException(text)
}

/// Whether `part` stands somewhere in `text`, as one piece.
pub open spec fn occurs_in(part: Seq<char>, text: Seq<char>) -> bool {
    exists|at: int|
        0 <= at && at + part.len() <= text.len() && #[trigger] text.subrange(
            at,
            at + part.len(),
        ) == part
}

/// What the guest is told of a thrown exception names the exception: the text holds the
/// canonical name of its class and, if it has one, its message.
pub proof fn lemma_caught_names_exception(throwable: ThrowableView)
    ensures
        occurs_in(throwable.class_name, spec_caught(spec_report(throwable))),
        throwable.message matches Some(message) ==> occurs_in(
            message,
            spec_caught(spec_report(throwable)),
        ),
        occurs_in(spec_headline(throwable), spec_caught(spec_report(throwable))),
{
    let text = spec_caught(spec_report(throwable));
    let before = "WASM caught an exception: "@ + (match throwable.cause {
        Some(cause) => "cause: "@ + spec_report(*cause),
        None => Seq::empty(),
    });
    let headline = spec_headline(throwable);
    let at = before.len() as int;
    assert(text.subrange(at, at + headline.len()) =~= headline);
    assert(text.subrange(at, at + throwable.class_name.len()) =~= throwable.class_name);
    match throwable.message {
        Some(message) => {
            let start = at + throwable.class_name.len() + ": "@.len();
            assert(text.subrange(start, start + message.len()) =~= message);
        },
        None => {},
    }
}

} // verus!
