//! The argument model: a command line is read into exactly one of the three
//! operations, or refused with a usage error before anything else runs.
//!
//! The grammar is the module's own logic and is stated once, as spec
//! functions over the token sequence; the executable parser is proved to
//! return exactly what those functions say.

use crate::numbers::{parse_u32, parse_u64, spec_parse_u32, spec_parse_u64};
use vstd::prelude::*;

verus! {

/// Parameters of a fetch: which story, whether to embed images, where the
/// document goes (none means the current working directory, resolved
/// later), and how many chapters may be fetched at once.
#[derive(Debug)]
pub struct FetchArgs {
    pub id: u64,
    pub include_images: bool,
    pub output_dir: Option<String>,
    pub concurrency: u32,
}

/// Credentials of a login; both are non-empty once parsing has accepted
/// them.
#[derive(Debug)]
pub struct LoginArgs {
    pub username: String,
    pub password: String,
}

/// The closed set of operations one invocation can ask for.
#[derive(Debug)]
pub enum Operation {
    Fetch(FetchArgs),
    Login(LoginArgs),
    Logout,
}

/// Why a command line was refused, before any session or network work.
#[derive(Clone, Copy, Debug, PartialEq, Eq, Structural)]
pub enum UsageError {
    MissingCommand,
    UnknownCommand,
    UnknownFlag,
    MissingValue,
    DuplicateFlag,
    MissingStoryId,
    MissingUsername,
    MissingPassword,
    EmptyUsername,
    EmptyPassword,
    InvalidNumber,
    ZeroConcurrency,
    UnexpectedArgument,
}

/// Mathematical form of `FetchArgs`.
pub struct FetchSpec {
    pub id: u64,
    pub include_images: bool,
    pub output_dir: Option<Seq<char>>,
    pub concurrency: u32,
}

/// Mathematical form of `LoginArgs`.
pub struct LoginSpec {
    pub username: Seq<char>,
    pub password: Seq<char>,
}

/// Mathematical form of `Operation`.
pub enum OpSpec {
    Fetch(FetchSpec),
    Login(LoginSpec),
    Logout,
}

impl View for FetchArgs {
    type V = FetchSpec;

    open spec fn view(&self) -> FetchSpec {
        FetchSpec {
            id: self.id,
            include_images: self.include_images,
            output_dir: self.output_dir.deep_view(),
            concurrency: self.concurrency,
        }
    }
}

impl View for LoginArgs {
    type V = LoginSpec;

    open spec fn view(&self) -> LoginSpec {
        LoginSpec { username: self.username@, password: self.password@ }
    }
}

impl View for Operation {
    type V = OpSpec;

    open spec fn view(&self) -> OpSpec {
        match self {
            Operation::Fetch(f) => OpSpec::Fetch(f@),
            Operation::Login(l) => OpSpec::Login(l@),
            Operation::Logout => OpSpec::Logout,
        }
    }
}

/// The concurrency limit used when the flag is absent.
pub open spec fn spec_default_concurrency() -> u32 {
    20
}

/// Flags of the fetch subcommand gathered so far.
pub struct FetchAcc {
    pub id: Option<u64>,
    pub include_images: bool,
    pub output_dir: Option<Seq<char>>,
    pub concurrency: Option<u32>,
}

/// Flags of the login subcommand gathered so far.
pub struct LoginAcc {
    pub username: Option<Seq<char>>,
    pub password: Option<Seq<char>>,
}

pub open spec fn spec_init_fetch() -> FetchAcc {
    FetchAcc { id: None, include_images: false, output_dir: None, concurrency: None }
}

pub open spec fn spec_init_login() -> LoginAcc {
    LoginAcc { username: None, password: None }
}

/// One pass over the fetch subcommand's flags.  Each flag may appear once;
/// the story id is required; the concurrency value must be positive and
/// defaults when absent.
pub open spec fn spec_parse_fetch(toks: Seq<Seq<char>>, acc: FetchAcc) -> Result<
    FetchSpec,
    UsageError,
>
    decreases toks.len(),
{
    if toks.len() == 0 {
        match acc.id {
            None => Err(UsageError::MissingStoryId),
            Some(id) => Ok(
                FetchSpec {
                    id,
                    include_images: acc.include_images,
                    output_dir: acc.output_dir,
                    concurrency: match acc.concurrency {
                        Some(v) => v,
                        None => spec_default_concurrency(),
                    },
                },
            ),
        }
    } else {
        let t = toks[0];
        if t == "--id"@ || t == "-d"@ {
            if acc.id is Some {
                Err(UsageError::DuplicateFlag)
            } else if toks.len() == 1 {
                Err(UsageError::MissingValue)
            } else {
                match spec_parse_u64(toks[1]) {
                    None => Err(UsageError::InvalidNumber),
                    Some(v) => spec_parse_fetch(
                        toks.skip(2),
                        FetchAcc {
                            id: Some(v),
                            include_images: acc.include_images,
                            output_dir: acc.output_dir,
                            concurrency: acc.concurrency,
                        },
                    ),
                }
            }
        } else if t == "--img"@ || t == "-i"@ {
            if acc.include_images {
                Err(UsageError::DuplicateFlag)
            } else {
                spec_parse_fetch(
                    toks.skip(1),
                    FetchAcc {
                        id: acc.id,
                        include_images: true,
                        output_dir: acc.output_dir,
                        concurrency: acc.concurrency,
                    },
                )
            }
        } else if t == "--output"@ || t == "-o"@ {
            if acc.output_dir is Some {
                Err(UsageError::DuplicateFlag)
            } else if toks.len() == 1 {
                Err(UsageError::MissingValue)
            } else {
                spec_parse_fetch(
                    toks.skip(2),
                    FetchAcc {
                        id: acc.id,
                        include_images: acc.include_images,
                        output_dir: Some(toks[1]),
                        concurrency: acc.concurrency,
                    },
                )
            }
        } else if t == "--semaphore"@ || t == "-s"@ {
            if acc.concurrency is Some {
                Err(UsageError::DuplicateFlag)
            } else if toks.len() == 1 {
                Err(UsageError::MissingValue)
            } else {
                match spec_parse_u32(toks[1]) {
                    None => Err(UsageError::InvalidNumber),
                    Some(v) => if v == 0 {
                        Err(UsageError::ZeroConcurrency)
                    } else {
                        spec_parse_fetch(
                            toks.skip(2),
                            FetchAcc {
                                id: acc.id,
                                include_images: acc.include_images,
                                output_dir: acc.output_dir,
                                concurrency: Some(v),
                            },
                        )
                    },
                }
            }
        } else {
            Err(UsageError::UnknownFlag)
        }
    }
}

/// One pass over the login subcommand's flags.  Both credentials are
/// required, may be given once, and may not be empty.
pub open spec fn spec_parse_login(toks: Seq<Seq<char>>, acc: LoginAcc) -> Result<
    LoginSpec,
    UsageError,
>
    decreases toks.len(),
{
    if toks.len() == 0 {
        match acc.username {
            None => Err(UsageError::MissingUsername),
            Some(u) => match acc.password {
                None => Err(UsageError::MissingPassword),
                Some(p) => Ok(LoginSpec { username: u, password: p }),
            },
        }
    } else {
        let t = toks[0];
        if t == "--username"@ || t == "-u"@ {
            if acc.username is Some {
                Err(UsageError::DuplicateFlag)
            } else if toks.len() == 1 {
                Err(UsageError::MissingValue)
            } else if toks[1].len() == 0 {
                Err(UsageError::EmptyUsername)
            } else {
                spec_parse_login(
                    toks.skip(2),
                    LoginAcc { username: Some(toks[1]), password: acc.password },
                )
            }
        } else if t == "--password"@ || t == "-p"@ {
            if acc.password is Some {
                Err(UsageError::DuplicateFlag)
            } else if toks.len() == 1 {
                Err(UsageError::MissingValue)
            } else if toks[1].len() == 0 {
                Err(UsageError::EmptyPassword)
            } else {
                spec_parse_login(
                    toks.skip(2),
                    LoginAcc { username: acc.username, password: Some(toks[1]) },
                )
            }
        } else {
            Err(UsageError::UnknownFlag)
        }
    }
}

/// What a whole command line (without the program name) means: exactly one
/// operation, or the usage error that refuses it.
pub open spec fn spec_parse(toks: Seq<Seq<char>>) -> Result<OpSpec, UsageError> {
    if toks.len() == 0 {
        Err(UsageError::MissingCommand)
    } else if toks[0] == "do"@ {
        match spec_parse_fetch(toks.skip(1), spec_init_fetch()) {
            Ok(f) => Ok(OpSpec::Fetch(f)),
            Err(e) => Err(e),
        }
    } else if toks[0] == "login"@ {
        match spec_parse_login(toks.skip(1), spec_init_login()) {
            Ok(l) => Ok(OpSpec::Login(l)),
            Err(e) => Err(e),
        }
    } else if toks[0] == "logout"@ {
        if toks.len() == 1 {
            Ok(OpSpec::Logout)
        } else {
            Err(UsageError::UnexpectedArgument)
        }
    } else {
        Err(UsageError::UnknownCommand)
    }
}

proof fn lemma_fetch_no_output(toks: Seq<Seq<char>>, acc: FetchAcc, f: FetchSpec)
    requires
        spec_parse_fetch(toks, acc) == Ok::<FetchSpec, UsageError>(f),
        acc.output_dir is None,
        forall|i: int| 0 <= i < toks.len() ==> toks[i] != "--output"@ && toks[i] != "-o"@,
    ensures
        f.output_dir is None,
    decreases toks.len(),
{
    if toks.len() > 0 {
        let t = toks[0];
        if t == "--id"@ || t == "-d"@ {
            if acc.id is None && toks.len() > 1 {
                match spec_parse_u64(toks[1]) {
                    Some(v) => {
                        assert forall|j: int| 0 <= j < toks.skip(2).len() implies toks.skip(2)[j]
                            != "--output"@ && toks.skip(2)[j] != "-o"@ by {
                            assert(toks.skip(2)[j] == toks[j + 2]);
                        }
                        lemma_fetch_no_output(
                            toks.skip(2),
                            FetchAcc {
                                id: Some(v),
                                include_images: acc.include_images,
                                output_dir: acc.output_dir,
                                concurrency: acc.concurrency,
                            },
                            f,
                        );
                    },
                    None => {},
                }
            }
        } else if t == "--img"@ || t == "-i"@ {
            if !acc.include_images {
                assert forall|j: int| 0 <= j < toks.skip(1).len() implies toks.skip(1)[j]
                    != "--output"@ && toks.skip(1)[j] != "-o"@ by {
                    assert(toks.skip(1)[j] == toks[j + 1]);
                }
                lemma_fetch_no_output(
                    toks.skip(1),
                    FetchAcc {
                        id: acc.id,
                        include_images: true,
                        output_dir: acc.output_dir,
                        concurrency: acc.concurrency,
                    },
                    f,
                );
            }
        } else if t == "--output"@ || t == "-o"@ {
            assert(toks[0] != "--output"@ && toks[0] != "-o"@);
        } else if t == "--semaphore"@ || t == "-s"@ {
            if acc.concurrency is None && toks.len() > 1 {
                match spec_parse_u32(toks[1]) {
                    Some(v) => {
                        if v != 0 {
                            assert forall|j: int| 0 <= j < toks.skip(2).len() implies toks.skip(
                                2,
                            )[j] != "--output"@ && toks.skip(2)[j] != "-o"@ by {
                                assert(toks.skip(2)[j] == toks[j + 2]);
                            }
                            lemma_fetch_no_output(
                                toks.skip(2),
                                FetchAcc {
                                    id: acc.id,
                                    include_images: acc.include_images,
                                    output_dir: acc.output_dir,
                                    concurrency: Some(v),
                                },
                                f,
                            );
                        }
                    },
                    None => {},
                }
            }
        }
    }
}

proof fn lemma_fetch_no_semaphore(toks: Seq<Seq<char>>, acc: FetchAcc, f: FetchSpec)
    requires
        spec_parse_fetch(toks, acc) == Ok::<FetchSpec, UsageError>(f),
        acc.concurrency is None,
        forall|i: int| 0 <= i < toks.len() ==> toks[i] != "--semaphore"@ && toks[i] != "-s"@,
    ensures
        f.concurrency == spec_default_concurrency(),
    decreases toks.len(),
{
    if toks.len() > 0 {
        let t = toks[0];
        if t == "--id"@ || t == "-d"@ {
            if acc.id is None && toks.len() > 1 {
                match spec_parse_u64(toks[1]) {
                    Some(v) => {
                        assert forall|j: int| 0 <= j < toks.skip(2).len() implies toks.skip(2)[j]
                            != "--semaphore"@ && toks.skip(2)[j] != "-s"@ by {
                            assert(toks.skip(2)[j] == toks[j + 2]);
                        }
                        lemma_fetch_no_semaphore(
                            toks.skip(2),
                            FetchAcc {
                                id: Some(v),
                                include_images: acc.include_images,
                                output_dir: acc.output_dir,
                                concurrency: acc.concurrency,
                            },
                            f,
                        );
                    },
                    None => {},
                }
            }
        } else if t == "--img"@ || t == "-i"@ {
            if !acc.include_images {
                assert forall|j: int| 0 <= j < toks.skip(1).len() implies toks.skip(1)[j]
                    != "--semaphore"@ && toks.skip(1)[j] != "-s"@ by {
                    assert(toks.skip(1)[j] == toks[j + 1]);
                }
                lemma_fetch_no_semaphore(
                    toks.skip(1),
                    FetchAcc {
                        id: acc.id,
                        include_images: true,
                        output_dir: acc.output_dir,
                        concurrency: acc.concurrency,
                    },
                    f,
                );
            }
        } else if t == "--output"@ || t == "-o"@ {
            if acc.output_dir is None && toks.len() > 1 {
                assert forall|j: int| 0 <= j < toks.skip(2).len() implies toks.skip(2)[j]
                    != "--semaphore"@ && toks.skip(2)[j] != "-s"@ by {
                    assert(toks.skip(2)[j] == toks[j + 2]);
                }
                lemma_fetch_no_semaphore(
                    toks.skip(2),
                    FetchAcc {
                        id: acc.id,
                        include_images: acc.include_images,
                        output_dir: Some(toks[1]),
                        concurrency: acc.concurrency,
                    },
                    f,
                );
            }
        } else if t == "--semaphore"@ || t == "-s"@ {
            assert(toks[0] != "--semaphore"@ && toks[0] != "-s"@);
        }
    }
}

proof fn lemma_fetch_positive(toks: Seq<Seq<char>>, acc: FetchAcc, f: FetchSpec)
    requires
        spec_parse_fetch(toks, acc) == Ok::<FetchSpec, UsageError>(f),
        (match acc.concurrency {
            Some(v) => v > 0,
            None => true,
        }),
    ensures
        f.concurrency > 0,
    decreases toks.len(),
{
    if toks.len() > 0 {
        let t = toks[0];
        if t == "--id"@ || t == "-d"@ {
            if acc.id is None && toks.len() > 1 {
                match spec_parse_u64(toks[1]) {
                    Some(v) => {
                        lemma_fetch_positive(
                            toks.skip(2),
                            FetchAcc {
                                id: Some(v),
                                include_images: acc.include_images,
                                output_dir: acc.output_dir,
                                concurrency: acc.concurrency,
                            },
                            f,
                        );
                    },
                    None => {},
                }
            }
        } else if t == "--img"@ || t == "-i"@ {
            if !acc.include_images {
                lemma_fetch_positive(
                    toks.skip(1),
                    FetchAcc {
                        id: acc.id,
                        include_images: true,
                        output_dir: acc.output_dir,
                        concurrency: acc.concurrency,
                    },
                    f,
                );
            }
        } else if t == "--output"@ || t == "-o"@ {
            if acc.output_dir is None && toks.len() > 1 {
                lemma_fetch_positive(
                    toks.skip(2),
                    FetchAcc {
                        id: acc.id,
                        include_images: acc.include_images,
                        output_dir: Some(toks[1]),
                        concurrency: acc.concurrency,
                    },
                    f,
                );
            }
        } else if t == "--semaphore"@ || t == "-s"@ {
            if acc.concurrency is None && toks.len() > 1 {
                match spec_parse_u32(toks[1]) {
                    Some(v) => {
                        if v != 0 {
                            lemma_fetch_positive(
                                toks.skip(2),
                                FetchAcc {
                                    id: acc.id,
                                    include_images: acc.include_images,
                                    output_dir: acc.output_dir,
                                    concurrency: Some(v),
                                },
                                f,
                            );
                        }
                    },
                    None => {},
                }
            }
        }
    }
}

proof fn lemma_login_nonempty(toks: Seq<Seq<char>>, acc: LoginAcc, l: LoginSpec)
    requires
        spec_parse_login(toks, acc) == Ok::<LoginSpec, UsageError>(l),
        (match acc.username {
            Some(u) => u.len() > 0,
            None => true,
        }),
        (match acc.password {
            Some(p) => p.len() > 0,
            None => true,
        }),
    ensures
        l.username.len() > 0,
        l.password.len() > 0,
    decreases toks.len(),
{
    if toks.len() > 0 {
        let t = toks[0];
        if t == "--username"@ || t == "-u"@ {
            if acc.username is None && toks.len() > 1 && toks[1].len() > 0 {
                lemma_login_nonempty(
                    toks.skip(2),
                    LoginAcc { username: Some(toks[1]), password: acc.password },
                    l,
                );
            }
        } else if t == "--password"@ || t == "-p"@ {
            if acc.password is None && toks.len() > 1 && toks[1].len() > 0 {
                lemma_login_nonempty(
                    toks.skip(2),
                    LoginAcc { username: acc.username, password: Some(toks[1]) },
                    l,
                );
            }
        }
    }
}

/// Law: a command line that never names the output flag parses, when it
/// parses to a fetch, to one with no explicit output directory.
pub proof fn lemma_output_flag_absent(toks: Seq<Seq<char>>, f: FetchSpec)
    requires
        spec_parse(toks) == Ok::<OpSpec, UsageError>(OpSpec::Fetch(f)),
        forall|i: int| 0 <= i < toks.len() ==> toks[i] != "--output"@ && toks[i] != "-o"@,
    ensures
        f.output_dir is None,
{
    if toks.len() > 0 && toks[0] == "do"@ {
        assert forall|j: int| 0 <= j < toks.skip(1).len() implies toks.skip(1)[j] != "--output"@
            && toks.skip(1)[j] != "-o"@ by {
            assert(toks.skip(1)[j] == toks[j + 1]);
        }
        match spec_parse_fetch(toks.skip(1), spec_init_fetch()) {
            Ok(g) => {
                lemma_fetch_no_output(toks.skip(1), spec_init_fetch(), g);
            },
            Err(_) => {},
        }
    }
}

/// Law: a command line that never names the concurrency flag parses, when
/// it parses to a fetch, to one with the default concurrency limit.
pub proof fn lemma_semaphore_flag_absent(toks: Seq<Seq<char>>, f: FetchSpec)
    requires
        spec_parse(toks) == Ok::<OpSpec, UsageError>(OpSpec::Fetch(f)),
        forall|i: int| 0 <= i < toks.len() ==> toks[i] != "--semaphore"@ && toks[i] != "-s"@,
    ensures
        f.concurrency == spec_default_concurrency(),
{
    if toks.len() > 0 && toks[0] == "do"@ {
        assert forall|j: int| 0 <= j < toks.skip(1).len() implies toks.skip(1)[j]
            != "--semaphore"@ && toks.skip(1)[j] != "-s"@ by {
            assert(toks.skip(1)[j] == toks[j + 1]);
        }
        match spec_parse_fetch(toks.skip(1), spec_init_fetch()) {
            Ok(g) => {
                lemma_fetch_no_semaphore(toks.skip(1), spec_init_fetch(), g);
            },
            Err(_) => {},
        }
    }
}

/// Law: once the concurrency flag's value is recorded, the parsed fetch
/// carries exactly that value downstream.
pub proof fn lemma_semaphore_value_kept(toks: Seq<Seq<char>>, acc: FetchAcc, c: u32, f: FetchSpec)
    requires
        spec_parse_fetch(toks, acc) == Ok::<FetchSpec, UsageError>(f),
        acc.concurrency == Some(c),
    ensures
        f.concurrency == c,
    decreases toks.len(),
{
    if toks.len() > 0 {
        let t = toks[0];
        if t == "--id"@ || t == "-d"@ {
            if acc.id is None && toks.len() > 1 {
                match spec_parse_u64(toks[1]) {
                    Some(v) => {
                        lemma_semaphore_value_kept(
                            toks.skip(2),
                            FetchAcc {
                                id: Some(v),
                                include_images: acc.include_images,
                                output_dir: acc.output_dir,
                                concurrency: acc.concurrency,
                            },
                            c,
                            f,
                        );
                    },
                    None => {},
                }
            }
        } else if t == "--img"@ || t == "-i"@ {
            if !acc.include_images {
                lemma_semaphore_value_kept(
                    toks.skip(1),
                    FetchAcc {
                        id: acc.id,
                        include_images: true,
                        output_dir: acc.output_dir,
                        concurrency: acc.concurrency,
                    },
                    c,
                    f,
                );
            }
        } else if t == "--output"@ || t == "-o"@ {
            if acc.output_dir is None && toks.len() > 1 {
                lemma_semaphore_value_kept(
                    toks.skip(2),
                    FetchAcc {
                        id: acc.id,
                        include_images: acc.include_images,
                        output_dir: Some(toks[1]),
                        concurrency: acc.concurrency,
                    },
                    c,
                    f,
                );
            }
        }
    }
}

/// Law: every fetch that parsing accepts carries a positive concurrency
/// limit.
pub proof fn lemma_concurrency_positive(toks: Seq<Seq<char>>, f: FetchSpec)
    requires
        spec_parse(toks) == Ok::<OpSpec, UsageError>(OpSpec::Fetch(f)),
    ensures
        f.concurrency > 0,
{
    if toks.len() > 0 && toks[0] == "do"@ {
        match spec_parse_fetch(toks.skip(1), spec_init_fetch()) {
            Ok(g) => {
                lemma_fetch_positive(toks.skip(1), spec_init_fetch(), g);
            },
            Err(_) => {},
        }
    }
}

/// Law: a login that parsing accepts carries non-empty credentials; an
/// empty username or password is refused before any session or network
/// work, as a usage error.
pub proof fn lemma_login_credentials_nonempty(toks: Seq<Seq<char>>, l: LoginSpec)
    requires
        spec_parse(toks) == Ok::<OpSpec, UsageError>(OpSpec::Login(l)),
    ensures
        l.username.len() > 0,
        l.password.len() > 0,
{
    if toks.len() > 0 && toks[0] == "login"@ {
        match spec_parse_login(toks.skip(1), spec_init_login()) {
            Ok(m) => {
                lemma_login_nonempty(toks.skip(1), spec_init_login(), m);
            },
            Err(_) => {},
        }
    }
}

/// Law: an empty command line is a usage error, before any session or
/// network work.
pub proof fn lemma_empty_command_line_is_usage_error(toks: Seq<Seq<char>>)
    requires
        toks.len() == 0,
    ensures
        spec_parse(toks) == Err::<OpSpec, UsageError>(UsageError::MissingCommand),
{
}

/// Law: a command line whose first token is no subcommand is a usage
/// error.
pub proof fn lemma_unknown_command_is_usage_error(toks: Seq<Seq<char>>)
    requires
        toks.len() > 0,
        toks[0] != "do"@,
        toks[0] != "login"@,
        toks[0] != "logout"@,
    ensures
        spec_parse(toks) == Err::<OpSpec, UsageError>(UsageError::UnknownCommand),
{
}

fn tok_is(t: &String, lit: &str) -> (b: bool)
    ensures
        b == (t@ == lit@),
{
    let s: String = lit.to_owned();
    t.eq(&s)
}

fn parse_fetch(args: &Vec<String>) -> (r: Result<FetchArgs, UsageError>)
    requires
        args@.len() >= 1,
    ensures
        (match r {
            Ok(f) => spec_parse_fetch(args.deep_view().skip(1), spec_init_fetch())
                == Ok::<FetchSpec, UsageError>(f@),
            Err(e) => spec_parse_fetch(args.deep_view().skip(1), spec_init_fetch())
                == Err::<FetchSpec, UsageError>(e),
        }),
{
    let ghost all: Seq<Seq<char>> = args.deep_view();
    let mut i: usize = 1;
    let mut id: Option<u64> = None;
    let mut img: bool = false;
    let mut out: Option<String> = None;
    let mut sem: Option<u32> = None;
    while i < args.len()
        invariant
            1 <= i <= args@.len(),
            all == args.deep_view(),
            spec_parse_fetch(all.skip(1), spec_init_fetch()) == spec_parse_fetch(
                all.skip(i as int),
                FetchAcc {
                    id: id,
                    include_images: img,
                    output_dir: out.deep_view(),
                    concurrency: sem,
                },
            ),
        decreases args@.len() - i,
    {
        let ghost rest = all.skip(i as int);
        proof {
            assert(rest[0] == all[i as int]);
            assert(all[i as int] == args@[i as int]@);
        }
        let t = &args[i];
        if tok_is(t, "--id") || tok_is(t, "-d") {
            if id.is_some() {
                return Err(UsageError::DuplicateFlag);
            }
            if i + 1 == args.len() {
                return Err(UsageError::MissingValue);
            }
            proof {
                assert(rest[1] == all[i + 1]);
                assert(all[i + 1] == args@[i + 1]@);
            }
            match parse_u64(args[i + 1].as_str()) {
                None => {
                    return Err(UsageError::InvalidNumber);
                },
                Some(v) => {
                    proof {
                        assert(all.skip(i as int).skip(2) =~= all.skip(i + 2));
                    }
                    id = Some(v);
                    i = i + 2;
                },
            }
        } else if tok_is(t, "--img") || tok_is(t, "-i") {
            if img {
                return Err(UsageError::DuplicateFlag);
            }
            proof {
                assert(all.skip(i as int).skip(1) =~= all.skip(i + 1));
            }
            img = true;
            i = i + 1;
        } else if tok_is(t, "--output") || tok_is(t, "-o") {
            if out.is_some() {
                return Err(UsageError::DuplicateFlag);
            }
            if i + 1 == args.len() {
                return Err(UsageError::MissingValue);
            }
            proof {
                assert(rest[1] == all[i + 1]);
                assert(all[i + 1] == args@[i + 1]@);
                assert(all.skip(i as int).skip(2) =~= all.skip(i + 2));
            }
            out = Some(args[i + 1].clone());
            i = i + 2;
        } else if tok_is(t, "--semaphore") || tok_is(t, "-s") {
            if sem.is_some() {
                return Err(UsageError::DuplicateFlag);
            }
            if i + 1 == args.len() {
                return Err(UsageError::MissingValue);
            }
            proof {
                assert(rest[1] == all[i + 1]);
                assert(all[i + 1] == args@[i + 1]@);
            }
            match parse_u32(args[i + 1].as_str()) {
                None => {
                    return Err(UsageError::InvalidNumber);
                },
                Some(v) => {
                    if v == 0 {
                        return Err(UsageError::ZeroConcurrency);
                    }
                    proof {
                        assert(all.skip(i as int).skip(2) =~= all.skip(i + 2));
                    }
                    sem = Some(v);
                    i = i + 2;
                },
            }
        } else {
            return Err(UsageError::UnknownFlag);
        }
    }
    proof {
        assert(all.skip(i as int).len() == 0);
    }
    match id {
        None => Err(UsageError::MissingStoryId),
        Some(idv) => {
            let limit: u32 = match sem {
                Some(v) => v,
                None => 20,
            };
            Ok(FetchArgs { id: idv, include_images: img, output_dir: out, concurrency: limit })
        },
    }
}

fn parse_login(args: &Vec<String>) -> (r: Result<LoginArgs, UsageError>)
    requires
        args@.len() >= 1,
    ensures
        (match r {
            Ok(l) => spec_parse_login(args.deep_view().skip(1), spec_init_login())
                == Ok::<LoginSpec, UsageError>(l@),
            Err(e) => spec_parse_login(args.deep_view().skip(1), spec_init_login())
                == Err::<LoginSpec, UsageError>(e),
        }),
{
    let ghost all: Seq<Seq<char>> = args.deep_view();
    let mut i: usize = 1;
    let mut user: Option<String> = None;
    let mut pass: Option<String> = None;
    while i < args.len()
        invariant
            1 <= i <= args@.len(),
            all == args.deep_view(),
            spec_parse_login(all.skip(1), spec_init_login()) == spec_parse_login(
                all.skip(i as int),
                LoginAcc { username: user.deep_view(), password: pass.deep_view() },
            ),
        decreases args@.len() - i,
    {
        let ghost rest = all.skip(i as int);
        proof {
            assert(rest[0] == all[i as int]);
            assert(all[i as int] == args@[i as int]@);
        }
        let t = &args[i];
        if tok_is(t, "--username") || tok_is(t, "-u") {
            if user.is_some() {
                return Err(UsageError::DuplicateFlag);
            }
            if i + 1 == args.len() {
                return Err(UsageError::MissingValue);
            }
            proof {
                assert(rest[1] == all[i + 1]);
                assert(all[i + 1] == args@[i + 1]@);
            }
            if args[i + 1].as_str().is_empty() {
                return Err(UsageError::EmptyUsername);
            }
            proof {
                assert(all.skip(i as int).skip(2) =~= all.skip(i + 2));
            }
            user = Some(args[i + 1].clone());
            i = i + 2;
        } else if tok_is(t, "--password") || tok_is(t, "-p") {
            if pass.is_some() {
                return Err(UsageError::DuplicateFlag);
            }
            if i + 1 == args.len() {
                return Err(UsageError::MissingValue);
            }
            proof {
                assert(rest[1] == all[i + 1]);
                assert(all[i + 1] == args@[i + 1]@);
            }
            if args[i + 1].as_str().is_empty() {
                return Err(UsageError::EmptyPassword);
            }
            proof {
                assert(all.skip(i as int).skip(2) =~= all.skip(i + 2));
            }
            pass = Some(args[i + 1].clone());
            i = i + 2;
        } else {
            return Err(UsageError::UnknownFlag);
        }
    }
    proof {
        assert(all.skip(i as int).len() == 0);
    }
    match user {
        None => Err(UsageError::MissingUsername),
        Some(u) => match pass {
            None => Err(UsageError::MissingPassword),
            Some(p) => Ok(LoginArgs { username: u, password: p }),
        },
    }
}

/// Reads a command line (without the program name) into exactly one
/// operation, or the usage error `spec_parse` assigns to it.
pub fn parse_args(args: &Vec<String>) -> (r: Result<Operation, UsageError>)
    ensures
        (match r {
            Ok(op) => spec_parse(args.deep_view()) == Ok::<OpSpec, UsageError>(op@),
            Err(e) => spec_parse(args.deep_view()) == Err::<OpSpec, UsageError>(e),
        }),
{
    let ghost all: Seq<Seq<char>> = args.deep_view();
    if args.len() == 0 {
        return Err(UsageError::MissingCommand);
    }
    proof {
        assert(all[0] == args@[0]@);
    }
    let cmd = &args[0];
    if tok_is(cmd, "do") {
        match parse_fetch(args) {
            Ok(f) => Ok(Operation::Fetch(f)),
            Err(e) => Err(e),
        }
    } else if tok_is(cmd, "login") {
        match parse_login(args) {
            Ok(l) => Ok(Operation::Login(l)),
            Err(e) => Err(e),
        }
    } else if tok_is(cmd, "logout") {
        if args.len() == 1 {
            Ok(Operation::Logout)
        } else {
            Err(UsageError::UnexpectedArgument)
        }
    } else {
        Err(UsageError::UnknownCommand)
    }
}

} // verus!

