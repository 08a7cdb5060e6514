use kbs2::backend::{Backend, RageLib};
use kbs2::error::{Error, ErrorKind};
use kbs2::util::{
    chomp, command_of, found_home_dir, parse_and_split_args, read_guarded, run_with_output, unwrap_keyfile,
    warn, wrap_key,
};

#[test]
fn test_parse_and_split_args() {
    {
        let (cmd, args) = parse_and_split_args("just-a-command").unwrap();
        assert_eq!(cmd, "just-a-command");
        assert_eq!(args, Vec::<String>::new());
    }

    {
        let (cmd, args) = parse_and_split_args("foo -a -ab --c -d=e --f=g bar baz quux").unwrap();
        assert_eq!(cmd, "foo");
        assert_eq!(args, vec!["-a", "-ab", "--c", "-d=e", "--f=g", "bar", "baz", "quux"]);
    }

    {
        let (cmd, args) = parse_and_split_args("foo 'one arg' \"another arg\" ''").unwrap();

        assert_eq!(cmd, "foo");
        assert_eq!(args, vec!["one arg", "another arg", ""]);
    }

    {
        let err = parse_and_split_args("some 'bad {syntax").unwrap_err();
        assert_eq!(err.to_string(), "failed to split command-line arguments: some 'bad {syntax");
    }

    {
        let err = parse_and_split_args("").unwrap_err();
        assert_eq!(err.to_string(), "missing one or more arguments in command");
    }
}

#[test]
fn test_run_with_output() {
    {
        // What `echo -n foo` writes.
        let output = run_with_output("echo", Some(b"foo".to_vec())).unwrap();
        assert_eq!(output, "foo");
    }

    {
        // What `echo foo` writes.
        let output = run_with_output("echo", Some(b"foo\n".to_vec())).unwrap();
        assert_eq!(output, "foo");
    }

    {
        let err = run_with_output("this-command-should-not-exist", None).unwrap_err();
        assert_eq!(err.to_string(), "failed to execute command: this-command-should-not-exist");
    }

    {
        let err = run_with_output("true", Some(vec![])).unwrap_err();
        assert_eq!(err.to_string(), "expected output from true, but none given");
    }

    {
        let err = run_with_output("bytes", Some(vec![0x66, 0xff, 0x6f])).unwrap_err();
        assert_eq!(err.kind, ErrorKind::Malformed);
        assert_eq!(err.to_string(), "invalid utf-8 sequence of 1 bytes from index 1");
    }
}

#[test]
fn test_read_guarded() {
    {
        // A file that holds "test".
        assert!(read_guarded(4, 1024).is_ok());
    }

    {
        // A file that holds "slightlytoobig".
        assert!(read_guarded(14, 10).is_err());
    }
}

#[test]
fn the_guard_lets_a_file_of_just_the_limit_through() {
    assert!(read_guarded(4096, 4096).is_ok());
    assert!(read_guarded(0, 0).is_ok());
    let err = read_guarded(4097, 4096).unwrap_err();
    assert_eq!(
        (err.kind, err.to_string().as_str()),
        (ErrorKind::Io, "requested file is suspiciously large, refusing")
    );
}

#[test]
fn only_one_line_feed_is_taken_off() {
    assert_eq!(chomp("foo\n\n".into()), "foo\n");
    assert_eq!(chomp("\n".into()), "");
    assert_eq!(chomp("".into()), "");
    assert_eq!(chomp("a\nb".into()), "a\nb");
    assert_eq!(run_with_output("x", Some("é\n\n".as_bytes().to_vec())).unwrap(), "é\n");
    assert_eq!(run_with_output("x", Some(b"\n".to_vec())).unwrap(), "");
}

#[test]
fn warnings_have_a_prefix() {
    assert_eq!(warn("nested hook requested"), "Warn: nested hook requested");
}

#[test]
fn keys_wrap_and_unwrap_here_as_in_the_backend() {
    let wrapped = wrap_key("the key", "pw").unwrap();
    assert_eq!(unwrap_keyfile(&wrapped, "pw").unwrap(), "the key");
    assert_eq!(RageLib::unwrap_keyfile(&wrapped, "pw").unwrap(), "the key");
    assert_eq!(unwrap_keyfile(&wrapped, "no").unwrap_err().kind, ErrorKind::Decrypt);
}

#[test]
fn errors_carry_their_message() {
    let err = Error::new(ErrorKind::Io, "gone");
    assert_eq!(err.kind, ErrorKind::Io);
    assert_eq!(err.to_string(), "gone");
    let err = Error::from(String::from("plain"));
    assert_eq!((err.kind, err.message.as_str()), (ErrorKind::Usage, "plain"));
}

#[test]
fn the_home_directory_is_what_was_found() {
    assert_eq!(found_home_dir(Some("/home/u".into())).unwrap(), "/home/u");
    assert_eq!(found_home_dir(Some(String::new())).unwrap(), "");
    let err = found_home_dir(None).unwrap_err();
    assert_eq!(
        (err.kind, err.to_string().as_str()),
        (ErrorKind::Config, "couldn't find the user's home directory")
    );
}

#[test]
fn the_first_word_is_the_command() {
    let words = |w: &[&str]| Some(w.iter().map(|s| s.to_string()).collect::<Vec<String>>());
    let (command, args) = command_of("anything", words(&["vim", "-u", "NONE"])).unwrap();
    assert_eq!((command.as_str(), args), ("vim", vec!["-u".to_string(), "NONE".to_string()]));
    let (command, args) = command_of("anything", words(&["vim"])).unwrap();
    assert_eq!((command.as_str(), args.len()), ("vim", 0));
    let err = command_of("a 'line", None).unwrap_err();
    assert_eq!(
        (err.kind, err.to_string().as_str()),
        (ErrorKind::Usage, "failed to split command-line arguments: a 'line")
    );
    let err = command_of("", words(&[])).unwrap_err();
    assert_eq!(
        (err.kind, err.to_string().as_str()),
        (ErrorKind::Usage, "missing one or more arguments in command")
    );
}
