use pqc_scanner::parse_file;
use pqc_scanner::Language;
use pqc_scanner::ParseError;

#[test]
fn test_parse_rust() {
    let source = "use std::collections::HashMap;\nlet x = HashMap::new();";
    let result = parse_file(source, "rust").unwrap();
    assert_eq!(result.imports.len(), 1);
    assert!(
        result
            .function_calls
            .iter()
            .any(|f| f.name.contains("HashMap"))
    );
}

#[test]
fn test_parse_javascript() {
    let source = "import crypto from 'crypto';\ncrypto.createCipher('aes', key);";
    let result = parse_file(source, "javascript").unwrap();
    assert!(!result.imports.is_empty());
    assert!(
        result
            .function_calls
            .iter()
            .any(|f| f.name.contains("crypto"))
    );
}

#[test]
fn test_parse_python() {
    let source = "from Crypto.Cipher import AES\nAES.new(key, AES.MODE_CBC)";
    let result = parse_file(source, "python").unwrap();
    assert!(!result.imports.is_empty());
}

#[test]
fn test_unsupported_language() {
    let result = parse_file("code", "cobol");
    assert!(result.is_err());
}

#[test]
fn test_parse_rust_import_path() {
    let source = "use std::collections::HashMap;";
    let result = parse_file(source, "rust").unwrap();
    assert_eq!(result.imports[0], "std::collections::HashMap");
}

#[test]
fn test_parse_rust_struct_declaration() {
    let source = "pub struct Wallet {\n    key: Vec<u8>,\n}";
    let result = parse_file(source, "rust").unwrap();
    assert!(result.ast_nodes.iter().any(|n| n.content == "Wallet"));
}

#[test]
fn test_parse_javascript_require() {
    let source = "const crypto = require('node-crypto');";
    let result = parse_file(source, "javascript").unwrap();
    assert_eq!(result.imports, vec!["node-crypto".to_string()]);
}

#[test]
fn test_parse_python_from_import_module() {
    let source = "from Crypto.Cipher import AES";
    let result = parse_file(source, "python").unwrap();
    assert_eq!(result.imports, vec!["Crypto.Cipher".to_string()]);
}

#[test]
fn test_parse_java_import() {
    let source = "import javax.crypto.Cipher;\nCipher c = Cipher.getInstance(\"DES\");";
    let result = parse_file(source, "java").unwrap();
    assert_eq!(result.imports, vec!["javax.crypto.Cipher".to_string()]);
    assert!(
        result
            .function_calls
            .iter()
            .any(|f| f.name == "Cipher.getInstance")
    );
}

#[test]
fn test_parse_go_import() {
    let source = "import \"crypto/md5\"\nh := md5.New()";
    let result = parse_file(source, "go").unwrap();
    assert_eq!(result.imports, vec!["crypto/md5".to_string()]);
    assert!(result.function_calls.iter().any(|f| f.name == "md5.New"));
}

#[test]
fn test_parse_skips_comment_lines() {
    let source = "// use md5::compute;\nlet a = 1;";
    let result = parse_file(source, "rust").unwrap();
    assert!(result.imports.is_empty());
    let source_py = "# import hashlib\nx = 1";
    let result_py = parse_file(source_py, "python").unwrap();
    assert!(result_py.imports.is_empty());
}

#[test]
fn test_parse_typescript_uses_javascript_profile() {
    let source = "import { createHash } from 'crypto';";
    let result = parse_file(source, "ts").unwrap();
    assert!(matches!(result.language, Language::TypeScript));
    assert_eq!(result.imports, vec!["crypto".to_string()]);
}

#[test]
fn test_parse_records_positions() {
    let source = "x = 1\nhash = hashlib.md5(data)";
    let result = parse_file(source, "python").unwrap();
    let call = result
        .function_calls
        .iter()
        .find(|f| f.name == "hashlib.md5")
        .unwrap();
    assert_eq!(call.line, 2);
    // 1-based: the name starts at the eighth character of the raw line.
    assert_eq!(call.column, 8);
}

#[test]
fn test_resolved_language_without_profile_is_rejected() {
    let result = parse_file("int main() {}", "c++");
    assert!(matches!(result, Err(ParseError::UnsupportedLanguage(ref s)) if s == "c++"));
}

#[test]
fn test_language_from_string_aliases() {
    assert_eq!(Language::from_string("rs"), Some(Language::Rust));
    assert_eq!(Language::from_string("JS"), Some(Language::JavaScript));
    assert_eq!(Language::from_string("GOLANG"), Some(Language::Go));
    assert_eq!(Language::from_string("C++"), Some(Language::Cpp));
    assert_eq!(Language::from_string("cxx"), Some(Language::Cpp));
    assert_eq!(Language::from_string("c#"), Some(Language::Csharp));
    assert_eq!(Language::from_string("Python"), Some(Language::Python));
    assert_eq!(Language::from_string("fortran"), None);
}

#[test]
fn test_parse_error_message_text() {
    let err = parse_file("code", "cobol").unwrap_err();
    assert_eq!(err.message(), "Unsupported language: cobol");
}
