use rlox::scanner::{ScanError, ScanErrorKind, Scanner};
use rlox::token::Token;
use rlox::token_type::TokenType;

fn scan(source: &str) -> (Vec<Token>, Vec<ScanError>) {
    Scanner::new(source).scan_tokens()
}

#[test]
fn maximal_munch_bang_equal() {
    let (tokens, errors) = scan("!=");
    assert!(errors.is_empty());
    assert_eq!(tokens.len(), 2);
    assert_eq!(tokens[0].typ, TokenType::BANG_EQUAL);
    assert_eq!(tokens[0].lexeme, "!=");
    assert_eq!(tokens[0].line, 1);
    assert_eq!(tokens[1].typ, TokenType::EOF);
}

#[test]
fn maximal_munch_other_pairs() {
    let (tokens, errors) = scan("== <= >= < > = !");
    assert!(errors.is_empty());
    let kinds: Vec<&TokenType> = tokens.iter().map(|t| &t.typ).collect();
    assert_eq!(
        kinds,
        vec![
            &TokenType::EQUAL_EQUAL,
            &TokenType::LESS_EQUAL,
            &TokenType::GREATER_EQUAL,
            &TokenType::LESS,
            &TokenType::GREATER,
            &TokenType::EQUAL,
            &TokenType::BANG,
            &TokenType::EOF,
        ]
    );
}

#[test]
fn line_comment_emits_no_token() {
    let (tokens, errors) = scan("1 // c\n2");
    assert!(errors.is_empty());
    assert_eq!(tokens.len(), 3);
    assert_eq!(tokens[0].typ, TokenType::NUMBER(1f64.to_bits()));
    assert_eq!(tokens[0].line, 1);
    assert_eq!(tokens[1].typ, TokenType::NUMBER(2f64.to_bits()));
    assert_eq!(tokens[1].line, 2);
    assert_eq!(tokens[2].typ, TokenType::EOF);
}

#[test]
fn block_comment_counts_embedded_newline() {
    let (tokens, errors) = scan("/* a\nb */3");
    assert!(errors.is_empty());
    assert_eq!(tokens.len(), 2);
    assert_eq!(tokens[0].typ, TokenType::NUMBER(3f64.to_bits()));
    assert_eq!(tokens[0].line, 2);
    assert_eq!(tokens[1].typ, TokenType::EOF);
}

#[test]
fn unterminated_string_is_error_without_token() {
    let (tokens, errors) = scan("\"abc");
    assert_eq!(tokens.len(), 1);
    assert_eq!(tokens[0].typ, TokenType::EOF);
    assert_eq!(errors.len(), 1);
    assert_eq!(errors[0].kind, ScanErrorKind::UnterminatedString);
    assert_eq!(errors[0].line, 1);
}

#[test]
fn unterminated_block_comment_is_error() {
    let (tokens, errors) = scan("/*x");
    assert_eq!(tokens.len(), 1);
    assert_eq!(tokens[0].typ, TokenType::EOF);
    assert_eq!(errors.len(), 1);
    assert_eq!(errors[0].kind, ScanErrorKind::UnterminatedComment);
}

#[test]
fn combined_grapheme_cluster_is_string_content() {
    // A multi-codepoint emoji sequence (woman + zero-width joiner + rocket)
    // is one grapheme cluster: it neither terminates nor splits the literal.
    let source = "\"a\u{1F469}\u{200D}\u{1F680}b\"";
    let (tokens, errors) = scan(source);
    assert!(errors.is_empty());
    assert_eq!(tokens.len(), 2);
    assert_eq!(
        tokens[0].typ,
        TokenType::STRING("a\u{1F469}\u{200D}\u{1F680}b".to_string())
    );
    assert_eq!(tokens[0].lexeme, source);
    assert_eq!(tokens[1].typ, TokenType::EOF);
}

#[test]
fn unexpected_character_reports_and_resumes() {
    let (tokens, errors) = scan("@1");
    assert_eq!(errors.len(), 1);
    assert_eq!(
        errors[0].kind,
        ScanErrorKind::UnexpectedCharacter { cluster: "@".to_string() }
    );
    assert_eq!(errors[0].line, 1);
    assert_eq!(tokens.len(), 2);
    assert_eq!(tokens[0].typ, TokenType::NUMBER(1f64.to_bits()));
}

#[test]
fn keywords_and_identifiers() {
    let (tokens, errors) = scan("and andy class whilex while");
    assert!(errors.is_empty());
    let kinds: Vec<&TokenType> = tokens.iter().map(|t| &t.typ).collect();
    assert_eq!(
        kinds,
        vec![
            &TokenType::AND,
            &TokenType::IDENTIFIER,
            &TokenType::CLASS,
            &TokenType::IDENTIFIER,
            &TokenType::WHILE,
            &TokenType::EOF,
        ]
    );
}

#[test]
fn trailing_dot_is_not_consumed() {
    let (tokens, errors) = scan("1.");
    assert!(errors.is_empty());
    assert_eq!(tokens.len(), 3);
    assert_eq!(tokens[0].typ, TokenType::NUMBER(1f64.to_bits()));
    assert_eq!(tokens[0].lexeme, "1");
    assert_eq!(tokens[1].typ, TokenType::DOT);
    assert_eq!(tokens[2].typ, TokenType::EOF);
}

#[test]
fn fractional_number_lexes_whole() {
    let (tokens, errors) = scan("12.5");
    assert!(errors.is_empty());
    assert_eq!(tokens.len(), 2);
    assert_eq!(tokens[0].typ, TokenType::NUMBER(12.5f64.to_bits()));
    assert_eq!(tokens[0].lexeme, "12.5");
}

#[test]
fn string_token_line_is_where_it_ends() {
    let (tokens, errors) = scan("\"a\nb\"");
    assert!(errors.is_empty());
    assert_eq!(tokens.len(), 2);
    assert_eq!(tokens[0].typ, TokenType::STRING("a\nb".to_string()));
    assert_eq!(tokens[0].line, 2);
}

#[test]
fn punctuation_tokens() {
    let (tokens, errors) = scan("(){},.-+;*/");
    assert!(errors.is_empty());
    let kinds: Vec<&TokenType> = tokens.iter().map(|t| &t.typ).collect();
    assert_eq!(
        kinds,
        vec![
            &TokenType::LEFT_PAREN,
            &TokenType::RIGHT_PAREN,
            &TokenType::LEFT_BRACE,
            &TokenType::RIGHT_BRACE,
            &TokenType::COMMA,
            &TokenType::DOT,
            &TokenType::MINUS,
            &TokenType::PLUS,
            &TokenType::SEMICOLON,
            &TokenType::STAR,
            &TokenType::SLASH,
            &TokenType::EOF,
        ]
    );
}
