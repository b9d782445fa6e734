use mxdns::parser::{
    credentials, decode_sasl_login, decode_sasl_plain, is_base64, login_name, next_string, parse,
    parse_auth_response, sasl_login_cmd, sasl_plain_cmd, Class,
};
use mxdns::smtp::{Cmd, Credentials, Response, MISSING_PARAMETER, SYNTAX_ERROR};

#[test]
fn auth_initial_plain() {
    let res = parse(b"auth plain dGVzdAB0ZXN0ADEyMzQ=\r\n");
    match res {
        Ok(Cmd::AuthPlain {
            authorization_id,
            authentication_id,
            password,
        }) => {
            assert_eq!(authorization_id, "test");
            assert_eq!(authentication_id, "test");
            assert_eq!(password, "1234");
        }
        _ => panic!("Auth plain with initial response incorrectly parsed"),
    };
}

#[test]
fn auth_initial_login() {
    let res = parse(b"auth login ZHVtbXk=\r\n");
    match res {
        Ok(Cmd::AuthLogin { username }) => {
            assert_eq!(username, "dummy");
        }
        _ => panic!("Auth login with initial response incorrectly parsed"),
    };
}

#[test]
fn auth_empty_plain() {
    let res = parse(b"auth plain\r\n");
    match res {
        Ok(Cmd::AuthPlainEmpty) => {}
        _ => panic!("Auth plain without initial response incorrectly parsed"),
    };
}

#[test]
fn auth_empty_login() {
    let res = parse(b"auth login\r\n");
    match res {
        Ok(Cmd::AuthLoginEmpty) => {}
        _ => panic!("Auth login without initial response incorrectly parsed"),
    };
}

#[test]
fn greetings_carry_their_domain() {
    assert_eq!(parse(b"helo a.domain\r\n"), Ok(Cmd::Helo { domain: "a.domain" }));
    assert_eq!(parse(b"EHLO   [127.0.0.1]\r\n"), Ok(Cmd::Ehlo { domain: "[127.0.0.1]" }));
    assert_eq!(parse(b"HeLo caf\xc3\xa9\r\nrest"), Ok(Cmd::Helo { domain: "caf\u{e9}" }));
}

#[test]
fn greetings_need_a_domain() {
    assert_eq!(parse(b"helo\r\n"), Err(Response::syntax_error()));
    assert_eq!(parse(b"helo \r\n"), Err(Response::syntax_error()));
    assert_eq!(parse(b"helo\ta.domain\r\n"), Err(Response::syntax_error()));
    assert_eq!(parse(b"helo a b\r\n"), Err(Response::syntax_error()));
    assert_eq!(parse(b"helo a\xff\r\n"), Err(Response::syntax_error()));
    assert_eq!(parse(b"ehlo a.domain"), Err(Response::syntax_error()));
    assert_eq!(parse(b"ehlo a.domain\n"), Err(Response::syntax_error()));
}

#[test]
fn mail_reads_path_and_body() {
    assert_eq!(parse(b"mail from:<a@b.c>\r\n"), Ok(Cmd::Mail { reverse_path: "a@b.c", is8bit: false }));
    assert_eq!(parse(b"MAIL FROM:  <a@b.c>  \r\n"), Ok(Cmd::Mail { reverse_path: "a@b.c", is8bit: false }));
    assert_eq!(parse(b"mail from:<a@b.c> BODY=8BITMIME\r\n"), Ok(Cmd::Mail { reverse_path: "a@b.c", is8bit: true }));
    assert_eq!(parse(b"mail from:<a@b.c>body=8bitmime\r\n"), Ok(Cmd::Mail { reverse_path: "a@b.c", is8bit: true }));
    assert_eq!(parse(b"mail from:<a@b.c> \t body=7bit\r\n"), Ok(Cmd::Mail { reverse_path: "a@b.c", is8bit: false }));
    assert_eq!(parse(b"Mail From:<a@b.c> Body=7Bit\r\n"), Ok(Cmd::Mail { reverse_path: "a@b.c", is8bit: false }));
}

#[test]
fn mail_refuses_what_is_no_path() {
    assert_eq!(parse(b"mail from:<>\r\n"), Err(Response::syntax_error()));
    assert_eq!(parse(b"mail from:a@b.c\r\n"), Err(Response::syntax_error()));
    assert_eq!(parse(b"mail from:<a@b.c\r\n"), Err(Response::syntax_error()));
    assert_eq!(parse(b"mail from:<a b>\r\n"), Err(Response::syntax_error()));
    assert_eq!(parse(b"mail from:\t<a@b.c>\r\n"), Err(Response::syntax_error()));
    assert_eq!(parse(b"mail from :<a@b.c>\r\n"), Err(Response::syntax_error()));
    assert_eq!(parse(b"mail from:<a@b.c>\t\r\n"), Err(Response::syntax_error()));
    assert_eq!(parse(b"mail from:<a@b.c> body=binary\r\n"), Err(Response::syntax_error()));
    assert_eq!(parse(b"mail from:<a@b.c> size=10\r\n"), Err(Response::syntax_error()));
    assert_eq!(parse(b"mail from:<a@b.c> body=8bitmimex\r\n"), Err(Response::syntax_error()));
}

#[test]
fn rcpt_reads_its_path() {
    assert_eq!(parse(b"rcpt to:<x@y.z>\r\n"), Ok(Cmd::Rcpt { forward_path: "x@y.z" }));
    assert_eq!(parse(b"RCPT TO: <x@y.z>\r\n"), Ok(Cmd::Rcpt { forward_path: "x@y.z" }));
    assert_eq!(parse(b"rcpt to:<x@y.z> \r\n"), Err(Response::syntax_error()));
    assert_eq!(parse(b"rcpt to:<>\r\n"), Err(Response::syntax_error()));
}

#[test]
fn bare_commands() {
    assert_eq!(parse(b"data\r\n"), Ok(Cmd::Data));
    assert_eq!(parse(b"RSET\r\n"), Ok(Cmd::Rset));
    assert_eq!(parse(b"Quit\r\n"), Ok(Cmd::Quit));
    assert_eq!(parse(b"noop\r\n"), Ok(Cmd::Noop));
    assert_eq!(parse(b"STARTTLS\r\n"), Ok(Cmd::StartTls));
    assert_eq!(parse(b"data \r\n"), Err(Response::syntax_error()));
    assert_eq!(parse(b"datax\r\n"), Err(Response::syntax_error()));
    assert_eq!(parse(b"dat\r\n"), Err(Response::syntax_error()));
    assert_eq!(parse(b" data\r\n"), Err(Response::syntax_error()));
    assert_eq!(parse(b""), Err(Response::syntax_error()));
    assert_eq!(parse(b"\r\n"), Err(Response::syntax_error()));
}

#[test]
fn vrfy_needs_a_parameter() {
    assert_eq!(parse(b"vrfy someone\r\n"), Ok(Cmd::Vrfy));
    assert_eq!(parse(b"vrfy some one <s@o>\r\n"), Ok(Cmd::Vrfy));
    assert_eq!(parse(b"vrfy\r\n"), Err(Response::syntax_error()));
    assert_eq!(parse(b"vrfy \r\n"), Err(Response::syntax_error()));
}

#[test]
fn auth_needs_a_known_mechanism() {
    assert_eq!(parse(b"auth cram-md5\r\n"), Err(Response::syntax_error()));
    assert_eq!(parse(b"auth\r\n"), Err(Response::syntax_error()));
    assert_eq!(parse(b"authplain\r\n"), Err(Response::syntax_error()));
    assert_eq!(parse(b"AUTH  PLAIN\r\n"), Ok(Cmd::AuthPlainEmpty));
    assert_eq!(parse(b"auth plain \r\n"), Err(Response::syntax_error()));
    assert_eq!(parse(b"auth plain a b\r\n"), Err(Response::syntax_error()));
    assert_eq!(parse(b"auth login *\r\n"), Err(Response::syntax_error()));
}

#[test]
fn bad_base64_gives_empty_credentials() {
    let empty = Cmd::AuthPlain {
        authorization_id: String::new(),
        authentication_id: String::new(),
        password: String::new(),
    };
    assert_eq!(parse(b"auth plain =\r\n"), Ok(empty.clone()));
    assert_eq!(sasl_plain_cmd(b"dGVzdA"), empty);
    assert_eq!(parse(b"auth login =\r\n"), Ok(Cmd::AuthLogin { username: String::new() }));
    assert_eq!(sasl_login_cmd(b"!"), Cmd::AuthLogin { username: String::new() });
}

#[test]
fn sasl_commands() {
    assert_eq!(sasl_plain_cmd(b""), Cmd::AuthPlainEmpty);
    assert_eq!(sasl_login_cmd(b""), Cmd::AuthLoginEmpty);
    assert_eq!(sasl_login_cmd(b"ZHVtbXk="), Cmd::AuthLogin { username: "dummy".to_string() });
    // "\0user\0pass"
    assert_eq!(
        sasl_plain_cmd(b"AHVzZXIAcGFzcw=="),
        Cmd::AuthPlain {
            authorization_id: String::new(),
            authentication_id: "user".to_string(),
            password: "pass".to_string(),
        }
    );
}

#[test]
fn sasl_decoding() {
    let creds = decode_sasl_plain(b"dGVzdAB0ZXN0ADEyMzQ=");
    assert_eq!(
        creds,
        Credentials {
            authorization_id: "test".to_string(),
            authentication_id: "test".to_string(),
            password: "1234".to_string(),
        }
    );
    assert_eq!(decode_sasl_login(b"ZHVtbXk="), "dummy");
    assert_eq!(decode_sasl_login(b"not base64"), "");
    // the bytes ff fe are no UTF-8
    assert_eq!(decode_sasl_login(b"//4="), "");
}

#[test]
fn credentials_are_the_first_three_fields() {
    let of = |bytes: &[u8]| credentials(Some(bytes.to_vec()));
    let creds = |a: &str, b: &str, c: &str| Credentials {
        authorization_id: a.to_string(),
        authentication_id: b.to_string(),
        password: c.to_string(),
    };
    assert_eq!(of(b"a\0b\0c"), creds("a", "b", "c"));
    assert_eq!(of(b"a\0b\0c\0d"), creds("a", "b", "c"));
    assert_eq!(of(b"a\0b"), creds("a", "b", ""));
    assert_eq!(of(b"a"), creds("a", "", ""));
    assert_eq!(of(b""), creds("", "", ""));
    assert_eq!(of(b"\0\0"), creds("", "", ""));
    assert_eq!(of(b"a\0\xff\0c"), creds("a", "", "c"));
    assert_eq!(credentials(None), creds("", "", ""));
    assert_eq!(login_name(Some(b"name".to_vec())), "name");
    assert_eq!(login_name(Some(vec![0xff])), "");
    assert_eq!(login_name(None), "");
}

#[test]
fn next_string_walks_the_fields() {
    let fields = b"one\0two\0";
    assert_eq!(next_string(fields, Some(0)), ("one".to_string(), Some(4)));
    assert_eq!(next_string(fields, Some(4)), ("two".to_string(), Some(8)));
    assert_eq!(next_string(fields, Some(8)), (String::new(), None));
    assert_eq!(next_string(fields, None), (String::new(), None));
    assert_eq!(next_string(fields, Some(9)), (String::new(), None));
    assert_eq!(next_string(fields, Some(1)), ("ne".to_string(), Some(4)));
}

#[test]
fn auth_response_is_base64_and_line_end() {
    assert_eq!(parse_auth_response(b"dGVzdA==\r\n"), Ok(&b"dGVzdA=="[..]));
    assert_eq!(parse_auth_response(b"abc+/=09AZ\r\nmore"), Ok(&b"abc+/=09AZ"[..]));
    assert_eq!(parse_auth_response(b"\r\n"), Err(Response::syntax_error()));
    assert_eq!(parse_auth_response(b"dGVzdA=="), Err(Response::syntax_error()));
    assert_eq!(parse_auth_response(b"dGVz dA==\r\n"), Err(Response::syntax_error()));
    assert_eq!(parse_auth_response(b"*\r\n"), Err(Response::syntax_error()));
    assert_eq!(parse_auth_response(b"dGVzdA==\n"), Err(Response::syntax_error()));
}

#[test]
fn base64_bytes() {
    for b in b"AZaz09+/=" {
        assert!(is_base64(*b));
        assert!(Class::Base64.contains(*b));
    }
    for b in b" -_*\r\n@[`{" {
        assert!(!is_base64(*b));
    }
    assert!(Class::Space.contains(b' ') && !Class::Space.contains(b'\t'));
    assert!(Class::Blank.contains(b'\t') && !Class::Blank.contains(b'\r'));
    assert!(Class::Domain.contains(b'<') && !Class::Domain.contains(b'\n'));
    assert!(Class::Path.contains(b'@') && !Class::Path.contains(b'>'));
    assert!(Class::Line.contains(b' ') && !Class::Line.contains(b'\r'));
    assert!(Class::Field.contains(1) && !Class::Field.contains(0));
}

#[test]
fn replies_have_their_codes() {
    let reply = Response::syntax_error();
    assert_eq!(reply.code, 500);
    assert_eq!(reply.code, SYNTAX_ERROR);
    assert_eq!(reply.message, "Syntax error");
    assert!(reply.is_error);
    let reply = Response::missing_parameter();
    assert_eq!(reply.code, MISSING_PARAMETER);
    assert_eq!(reply.code, 502);
    assert_eq!(reply.message, "Missing parameter");
    assert!(reply.is_error);
}
