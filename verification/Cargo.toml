[package]
name = "doc_link_resolver"
version = "0.1.0"
edition = "2021"
publish = false

[dependencies]
ra_ap_base_db = "=0.0.256"
ra_ap_hir_def = "=0.0.256"
ra_ap_hir_expand = "=0.0.256"
ra_ap_hir_ty = "=0.0.256"
ra_ap_syntax = "=0.0.256"
