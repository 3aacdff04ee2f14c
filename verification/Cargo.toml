[package]
name = "tokenizers"
version = "0.1.0"
edition = "2021"
publish = false

[dependencies]
charabia = { version = "=0.10.0", default-features = false, features = ["chinese", "hebrew", "thai", "greek", "khmer", "vietnamese", "swedish-recomposition", "turkish", "german-segmentation"] }
once_cell = "=1.21.4"
tantivy = "=0.27.0"
unicode-normalization = "=0.1.26"
