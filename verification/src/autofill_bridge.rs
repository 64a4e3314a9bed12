//! The autofill bridge script injected into pages: it finds login forms,
//! offers saved logins in a picker and asks to save new ones, talking to
//! the browser through `password://` requests from a hidden frame (never
//! by navigating the page itself). Its colors come from the active theme.

use vstd::prelude::*;
use crate::pages::PageTheme;
use crate::text::{push_str, string_of};

verus! {

/// The bridge script in the colors of `t`, `radius` and `radius_inner`
/// being the CSS lengths that round its picker and banner and their
/// buttons.
pub open spec fn bridge_script(t: PageTheme, radius: Seq<char>, radius_inner: Seq<char>) -> Seq<char> {
    "\n(function() {\n  // Re-inject after unlock: field may already be focused (no new focusin).\n  if (window.__spatialAutofillBridge__) {\n    try { window.__spatialAutofillKick && window.__spatialAutofillKick(); } catch (e) {}\n    return;\n  }\n  window.__spatialAutofillBridge__ = true;\n\n  var UI = {\n    bg: '"@
        + t.help_bg@
        + "',\n    fg: '"@
        + t.help_fg@
        + "',\n    card: '"@
        + t.help_card_bg@
        + "',\n    border: '"@
        + t.help_card_border@
        + "',\n    accent: '"@
        + t.help_key_bg@
        + "',\n    accentFg: '"@
        + t.help_key_fg@
        + "',\n    radius: '"@
        + radius
        + "',\n    radiusInner: '"@
        + radius_inner
        + "'\n  };\n\n  function signal(url) {\n    try {\n      var ifr = document.createElement('iframe');\n      ifr.setAttribute('aria-hidden', 'true');\n      ifr.style.cssText = 'position:absolute;width:0;height:0;border:0;visibility:hidden';\n      ifr.src = url;\n      (document.documentElement || document.body).appendChild(ifr);\n      setTimeout(function() { try { ifr.remove(); } catch (e) {} }, 2500);\n    } catch (e) {}\n  }\n\n  function originOf() {\n    try { return location.origin || (location.protocol + '//' + location.host); } catch (e) { return ''; }\n  }\n\n  function setNativeValue(el, value) {\n    if (!el) return;\n    var proto = el.tagName === 'TEXTAREA'\n      ? window.HTMLTextAreaElement.prototype\n      : window.HTMLInputElement.prototype;\n    var desc = Object.getOwnPropertyDescriptor(proto, 'value');\n    if (desc && desc.set) desc.set.call(el, value);\n    else el.value = value;\n    el.dispatchEvent(new Event('input', { bubbles: true }));\n    el.dispatchEvent(new Event('change', { bubbles: true }));\n  }\n\n  function scoreUsername(el) {\n    var t = ((el.type || '') + ' ' + (el.name || '') + ' ' + (el.id || '') + ' ' + (el.autocomplete || '') + ' ' + (el.placeholder || '')).toLowerCase();\n    if (t.indexOf('pass') >= 0) return -1;\n    if (el.type === 'email' || t.indexOf('email') >= 0 || t.indexOf('user') >= 0 || t.indexOf('login') >= 0) return 2;\n    if (el.type === 'text' || !el.type) return 1;\n    return 0;\n  }\n\n  function findFields(root) {\n    root = root || document;\n    var pwd = root.querySelector('input[type=\"password\"]');\n    if (!pwd) return null;\n    var form = pwd.form || pwd.closest('form') || document;\n    var inputs = Array.prototype.slice.call(form.querySelectorAll('input'));\n    var user = null, best = 0;\n    inputs.forEach(function(el) {\n      if (el === pwd || el.type === 'hidden' || el.type === 'submit') return;\n      var s = scoreUsername(el);\n      if (s > best) { best = s; user = el; }\n    });\n    return { form: form, password: pwd, username: user };\n  }\n\n  function fieldByHints(hints) {\n    var inputs = Array.prototype.slice.call(document.querySelectorAll('input, textarea'));\n    for (var i = 0; i < inputs.length; i++) {\n      var el = inputs[i];\n      var blob = ((el.autocomplete || '') + ' ' + (el.name || '') + ' ' + (el.id || '') + ' ' + (el.type || '')).toLowerCase();\n      for (var h = 0; h < hints.length; h++) {\n        if (blob.indexOf(hints[h]) >= 0) return el;\n      }\n    }\n    return null;\n  }\n\n  window.__spatialAutofillFill = function(entry) {\n    var fields = findFields();\n    if (fields) {\n      if (fields.username && entry.username) setNativeValue(fields.username, entry.username);\n      if (fields.password && entry.password) setNativeValue(fields.password, entry.password);\n    }\n    if (entry.email) setNativeValue(fieldByHints(['email']), entry.email);\n    if (entry.address_line1) setNativeValue(fieldByHints(['street-address', 'address-line1', 'address1']), entry.address_line1);\n    if (entry.city) setNativeValue(fieldByHints(['address-level2', 'city']), entry.city);\n    if (entry.postal_code) setNativeValue(fieldByHints(['postal-code', 'zip']), entry.postal_code);\n    if (entry.country) setNativeValue(fieldByHints(['country']), entry.country);\n    hidePicker();\n  };\n\n  function hidePicker() {\n    var el = document.getElementById('__spatial_pw_picker');\n    if (el) el.remove();\n  }\n\n  window.__spatialAutofillShowPicker = function(items) {\n    hidePicker();\n    hideSave();\n    if (!items || !items.length) return;\n    var box = document.createElement('div');\n    box.id = '__spatial_pw_picker';\n    // Same corner as the save banner (left) — not opposite sides.\n    box.style.cssText = 'position:fixed;z-index:2147483647;left:16px;bottom:16px;max-width:320px;background:'+UI.bg+';color:'+UI.fg+';border:1px solid '+UI.border+';border-radius:'+UI.radius+';padding:10px 12px;font:13px/1.4 system-ui,sans-serif;box-shadow:0 8px 24px rgba(0,0,0,.45)';\n    var title = document.createElement('div');\n    title.textContent = items.length === 1 ? 'Use saved login?' : 'Use saved login';\n    title.style.cssText = 'font-weight:600;margin-bottom:8px;opacity:.9';\n    box.appendChild(title);\n    items.forEach(function(it) {\n      var btn = document.createElement('button');\n      btn.type = 'button';\n      btn.textContent = it.username || '(no username)';\n      btn.style.cssText = 'display:block;width:100%;text-align:left;margin:4px 0;padding:8px 10px;border-radius:'+UI.radiusInner+';border:1px solid '+UI.border+';background:'+UI.card+';color:'+UI.fg+';cursor:pointer';\n      btn.onclick = function(ev) {\n        ev.preventDefault();\n        signal('password://go/fill?id=' + encodeURIComponent(it.id));\n      };\n      box.appendChild(btn);\n    });\n    var dismiss = document.createElement('button');\n    dismiss.type = 'button';\n    dismiss.textContent = 'Not now';\n    dismiss.style.cssText = 'margin-top:8px;background:transparent;border:none;color:'+UI.accent+';cursor:pointer;padding:4px 0';\n    dismiss.onclick = hidePicker;\n    box.appendChild(dismiss);\n    document.documentElement.appendChild(box);\n  };\n\n  function hideSave() {\n    var el = document.getElementById('__spatial_pw_save');\n    if (el) el.remove();\n  }\n\n  window.__spatialAutofillShowSave = function(payload) {\n    hideSave();\n    hidePicker();\n    var box = document.createElement('div');\n    box.id = '__spatial_pw_save';\n    box.style.cssText = 'position:fixed;z-index:2147483647;left:16px;bottom:16px;max-width:360px;background:'+UI.bg+';color:'+UI.fg+';border:1px solid '+UI.border+';border-radius:'+UI.radius+';padding:12px 14px;font:13px/1.4 system-ui,sans-serif;box-shadow:0 8px 24px rgba(0,0,0,.45)';\n    var head = document.createElement('div');\n    head.style.cssText = 'font-weight:600;margin-bottom:6px';\n    head.textContent = 'Save password?';\n    var sub = document.createElement('div');\n    sub.style.cssText = 'opacity:.75;margin-bottom:10px;word-break:break-all';\n    sub.textContent = (payload.username || '') + ' @ ' + (payload.origin || '');\n    box.appendChild(head);\n    box.appendChild(sub);\n    function btn(label, href, primary) {\n      var b = document.createElement('button');\n      b.type = 'button';\n      b.textContent = label;\n      b.style.cssText = 'margin:0 6px 0 0;padding:7px 12px;border-radius:'+UI.radiusInner+';border:1px solid '+UI.border+';cursor:pointer;' +\n        (primary ? 'background:'+UI.accent+';color:'+UI.accentFg+';font-weight:600' : 'background:'+UI.card+';color:'+UI.fg);\n      b.onclick = function(ev) {\n        ev.preventDefault();\n        if (href) signal(href);\n        hideSave();\n      };\n      return b;\n    }\n    var q = 'origin=' + encodeURIComponent(payload.origin || '') +\n      '&username=' + encodeURIComponent(payload.username || '') +\n      '&password=' + encodeURIComponent(payload.password || '') +\n      '&id=' + encodeURIComponent(payload.id || '');\n    box.appendChild(btn('Save', 'password://go/save?' + q, true));\n    box.appendChild(btn('Never for site', 'password://go/never?origin=' + encodeURIComponent(payload.origin || ''), false));\n    box.appendChild(btn('Not now', '', false));\n    document.documentElement.appendChild(box);\n  };\n\n  function requestQuery() {\n    var o = originOf();\n    if (!o || o === 'null' || o.indexOf('data:') === 0) return;\n    // Path-style host (`go`) avoids CEF turning `password://query?…` into\n    // `password://query/?…` and breaking parse_password_action.\n    signal('password://go/query?origin=' + encodeURIComponent(o));\n  }\n\n  // Re-query on each login-field focus (debounced). The old once-per-page\n  // flag meant: first focus while vault locked → never suggest again;\n  // context-menu Fill was the only path that still worked.\n  var lastQueryAt = 0;\n  function maybeQueryFromFocus(t) {\n    if (!t || !t.tagName || t.tagName !== 'INPUT') return;\n    if (t.type === 'password' || scoreUsername(t) > 0) {\n      var now = Date.now();\n      if (now - lastQueryAt < 400) return;\n      lastQueryAt = now;\n      setTimeout(requestQuery, 50);\n    }\n  }\n  window.__spatialAutofillKick = function() {\n    lastQueryAt = 0;\n    setTimeout(requestQuery, 30);\n  };\n  document.addEventListener('focusin', function(ev) {\n    maybeQueryFromFocus(ev.target);\n  }, true);\n  // Some sites move focus before our bridge loads; also catch click into fields.\n  document.addEventListener('pointerdown', function(ev) {\n    maybeQueryFromFocus(ev.target);\n  }, true);\n\n  document.addEventListener('submit', function(ev) {\n    var fields = findFields(ev.target);\n    if (!fields || !fields.password || !fields.password.value) return;\n    var o = originOf();\n    if (!o) return;\n    var user = (fields.username && fields.username.value) || '';\n    var pass = fields.password.value;\n    // Only signal Rust — do NOT show a local fallback banner. Rust skips\n    // identical username+password; a JS fallback ignored that and always\n    // popped \"Save password?\" after autofill + submit.\n    signal('password://go/save-offer?origin=' + encodeURIComponent(o) +\n      '&username=' + encodeURIComponent(user) +\n      '&password=' + encodeURIComponent(pass));\n  }, true);\n\n  // Right-click hit-test: compositor calls this with DIP coords, then\n  // opens an in-canvas menu from the context://hit signal.\n  window.__spatialContextHitAt = function(x, y) {\n    var el = document.elementFromPoint(x, y);\n    var link = '', image = '', pwd = false;\n    var n = el;\n    while (n && n.nodeType === 1) {\n      if (!link && n.tagName === 'A' && n.href) link = n.href;\n      if (!image && n.tagName === 'IMG' && n.src) image = n.src;\n      if (n.tagName === 'INPUT' && (n.type || '').toLowerCase() === 'password') pwd = true;\n      n = n.parentElement;\n    }\n    signal('context://hit?link=' + encodeURIComponent(link) +\n      '&image=' + encodeURIComponent(image) +\n      '&pwd=' + (pwd ? '1' : '0') +\n      '&page=' + encodeURIComponent(location.href));\n  };\n\n  // Suppress Chromium's own context menu — we draw ours on the canvas.\n  document.addEventListener('contextmenu', function(ev) {\n    ev.preventDefault();\n  }, true);\n})();\n"@
}

/// Builds the bridge script for the current theme.
pub fn script(theme: &PageTheme, radius: &str, radius_inner: &str) -> (r: String)
    ensures
        r@ == bridge_script(*theme, radius@, radius_inner@),
{
    let t = theme;
    let mut out: Vec<char> = Vec::new();
    push_str(&mut out, "\n(function() {\n  // Re-inject after unlock: field may already be focused (no new focusin).\n  if (window.__spatialAutofillBridge__) {\n    try { window.__spatialAutofillKick && window.__spatialAutofillKick(); } catch (e) {}\n    return;\n  }\n  window.__spatialAutofillBridge__ = true;\n\n  var UI = {\n    bg: '");
    push_str(&mut out, t.help_bg);
    push_str(&mut out, "',\n    fg: '");
    push_str(&mut out, t.help_fg);
    push_str(&mut out, "',\n    card: '");
    push_str(&mut out, t.help_card_bg);
    push_str(&mut out, "',\n    border: '");
    push_str(&mut out, t.help_card_border);
    push_str(&mut out, "',\n    accent: '");
    push_str(&mut out, t.help_key_bg);
    push_str(&mut out, "',\n    accentFg: '");
    push_str(&mut out, t.help_key_fg);
    push_str(&mut out, "',\n    radius: '");
    push_str(&mut out, radius);
    push_str(&mut out, "',\n    radiusInner: '");
    push_str(&mut out, radius_inner);
    push_str(&mut out, "'\n  };\n\n  function signal(url) {\n    try {\n      var ifr = document.createElement('iframe');\n      ifr.setAttribute('aria-hidden', 'true');\n      ifr.style.cssText = 'position:absolute;width:0;height:0;border:0;visibility:hidden';\n      ifr.src = url;\n      (document.documentElement || document.body).appendChild(ifr);\n      setTimeout(function() { try { ifr.remove(); } catch (e) {} }, 2500);\n    } catch (e) {}\n  }\n\n  function originOf() {\n    try { return location.origin || (location.protocol + '//' + location.host); } catch (e) { return ''; }\n  }\n\n  function setNativeValue(el, value) {\n    if (!el) return;\n    var proto = el.tagName === 'TEXTAREA'\n      ? window.HTMLTextAreaElement.prototype\n      : window.HTMLInputElement.prototype;\n    var desc = Object.getOwnPropertyDescriptor(proto, 'value');\n    if (desc && desc.set) desc.set.call(el, value);\n    else el.value = value;\n    el.dispatchEvent(new Event('input', { bubbles: true }));\n    el.dispatchEvent(new Event('change', { bubbles: true }));\n  }\n\n  function scoreUsername(el) {\n    var t = ((el.type || '') + ' ' + (el.name || '') + ' ' + (el.id || '') + ' ' + (el.autocomplete || '') + ' ' + (el.placeholder || '')).toLowerCase();\n    if (t.indexOf('pass') >= 0) return -1;\n    if (el.type === 'email' || t.indexOf('email') >= 0 || t.indexOf('user') >= 0 || t.indexOf('login') >= 0) return 2;\n    if (el.type === 'text' || !el.type) return 1;\n    return 0;\n  }\n\n  function findFields(root) {\n    root = root || document;\n    var pwd = root.querySelector('input[type=\"password\"]');\n    if (!pwd) return null;\n    var form = pwd.form || pwd.closest('form') || document;\n    var inputs = Array.prototype.slice.call(form.querySelectorAll('input'));\n    var user = null, best = 0;\n    inputs.forEach(function(el) {\n      if (el === pwd || el.type === 'hidden' || el.type === 'submit') return;\n      var s = scoreUsername(el);\n      if (s > best) { best = s; user = el; }\n    });\n    return { form: form, password: pwd, username: user };\n  }\n\n  function fieldByHints(hints) {\n    var inputs = Array.prototype.slice.call(document.querySelectorAll('input, textarea'));\n    for (var i = 0; i < inputs.length; i++) {\n      var el = inputs[i];\n      var blob = ((el.autocomplete || '') + ' ' + (el.name || '') + ' ' + (el.id || '') + ' ' + (el.type || '')).toLowerCase();\n      for (var h = 0; h < hints.length; h++) {\n        if (blob.indexOf(hints[h]) >= 0) return el;\n      }\n    }\n    return null;\n  }\n\n  window.__spatialAutofillFill = function(entry) {\n    var fields = findFields();\n    if (fields) {\n      if (fields.username && entry.username) setNativeValue(fields.username, entry.username);\n      if (fields.password && entry.password) setNativeValue(fields.password, entry.password);\n    }\n    if (entry.email) setNativeValue(fieldByHints(['email']), entry.email);\n    if (entry.address_line1) setNativeValue(fieldByHints(['street-address', 'address-line1', 'address1']), entry.address_line1);\n    if (entry.city) setNativeValue(fieldByHints(['address-level2', 'city']), entry.city);\n    if (entry.postal_code) setNativeValue(fieldByHints(['postal-code', 'zip']), entry.postal_code);\n    if (entry.country) setNativeValue(fieldByHints(['country']), entry.country);\n    hidePicker();\n  };\n\n  function hidePicker() {\n    var el = document.getElementById('__spatial_pw_picker');\n    if (el) el.remove();\n  }\n\n  window.__spatialAutofillShowPicker = function(items) {\n    hidePicker();\n    hideSave();\n    if (!items || !items.length) return;\n    var box = document.createElement('div');\n    box.id = '__spatial_pw_picker';\n    // Same corner as the save banner (left) — not opposite sides.\n    box.style.cssText = 'position:fixed;z-index:2147483647;left:16px;bottom:16px;max-width:320px;background:'+UI.bg+';color:'+UI.fg+';border:1px solid '+UI.border+';border-radius:'+UI.radius+';padding:10px 12px;font:13px/1.4 system-ui,sans-serif;box-shadow:0 8px 24px rgba(0,0,0,.45)';\n    var title = document.createElement('div');\n    title.textContent = items.length === 1 ? 'Use saved login?' : 'Use saved login';\n    title.style.cssText = 'font-weight:600;margin-bottom:8px;opacity:.9';\n    box.appendChild(title);\n    items.forEach(function(it) {\n      var btn = document.createElement('button');\n      btn.type = 'button';\n      btn.textContent = it.username || '(no username)';\n      btn.style.cssText = 'display:block;width:100%;text-align:left;margin:4px 0;padding:8px 10px;border-radius:'+UI.radiusInner+';border:1px solid '+UI.border+';background:'+UI.card+';color:'+UI.fg+';cursor:pointer';\n      btn.onclick = function(ev) {\n        ev.preventDefault();\n        signal('password://go/fill?id=' + encodeURIComponent(it.id));\n      };\n      box.appendChild(btn);\n    });\n    var dismiss = document.createElement('button');\n    dismiss.type = 'button';\n    dismiss.textContent = 'Not now';\n    dismiss.style.cssText = 'margin-top:8px;background:transparent;border:none;color:'+UI.accent+';cursor:pointer;padding:4px 0';\n    dismiss.onclick = hidePicker;\n    box.appendChild(dismiss);\n    document.documentElement.appendChild(box);\n  };\n\n  function hideSave() {\n    var el = document.getElementById('__spatial_pw_save');\n    if (el) el.remove();\n  }\n\n  window.__spatialAutofillShowSave = function(payload) {\n    hideSave();\n    hidePicker();\n    var box = document.createElement('div');\n    box.id = '__spatial_pw_save';\n    box.style.cssText = 'position:fixed;z-index:2147483647;left:16px;bottom:16px;max-width:360px;background:'+UI.bg+';color:'+UI.fg+';border:1px solid '+UI.border+';border-radius:'+UI.radius+';padding:12px 14px;font:13px/1.4 system-ui,sans-serif;box-shadow:0 8px 24px rgba(0,0,0,.45)';\n    var head = document.createElement('div');\n    head.style.cssText = 'font-weight:600;margin-bottom:6px';\n    head.textContent = 'Save password?';\n    var sub = document.createElement('div');\n    sub.style.cssText = 'opacity:.75;margin-bottom:10px;word-break:break-all';\n    sub.textContent = (payload.username || '') + ' @ ' + (payload.origin || '');\n    box.appendChild(head);\n    box.appendChild(sub);\n    function btn(label, href, primary) {\n      var b = document.createElement('button');\n      b.type = 'button';\n      b.textContent = label;\n      b.style.cssText = 'margin:0 6px 0 0;padding:7px 12px;border-radius:'+UI.radiusInner+';border:1px solid '+UI.border+';cursor:pointer;' +\n        (primary ? 'background:'+UI.accent+';color:'+UI.accentFg+';font-weight:600' : 'background:'+UI.card+';color:'+UI.fg);\n      b.onclick = function(ev) {\n        ev.preventDefault();\n        if (href) signal(href);\n        hideSave();\n      };\n      return b;\n    }\n    var q = 'origin=' + encodeURIComponent(payload.origin || '') +\n      '&username=' + encodeURIComponent(payload.username || '') +\n      '&password=' + encodeURIComponent(payload.password || '') +\n      '&id=' + encodeURIComponent(payload.id || '');\n    box.appendChild(btn('Save', 'password://go/save?' + q, true));\n    box.appendChild(btn('Never for site', 'password://go/never?origin=' + encodeURIComponent(payload.origin || ''), false));\n    box.appendChild(btn('Not now', '', false));\n    document.documentElement.appendChild(box);\n  };\n\n  function requestQuery() {\n    var o = originOf();\n    if (!o || o === 'null' || o.indexOf('data:') === 0) return;\n    // Path-style host (`go`) avoids CEF turning `password://query?…` into\n    // `password://query/?…` and breaking parse_password_action.\n    signal('password://go/query?origin=' + encodeURIComponent(o));\n  }\n\n  // Re-query on each login-field focus (debounced). The old once-per-page\n  // flag meant: first focus while vault locked → never suggest again;\n  // context-menu Fill was the only path that still worked.\n  var lastQueryAt = 0;\n  function maybeQueryFromFocus(t) {\n    if (!t || !t.tagName || t.tagName !== 'INPUT') return;\n    if (t.type === 'password' || scoreUsername(t) > 0) {\n      var now = Date.now();\n      if (now - lastQueryAt < 400) return;\n      lastQueryAt = now;\n      setTimeout(requestQuery, 50);\n    }\n  }\n  window.__spatialAutofillKick = function() {\n    lastQueryAt = 0;\n    setTimeout(requestQuery, 30);\n  };\n  document.addEventListener('focusin', function(ev) {\n    maybeQueryFromFocus(ev.target);\n  }, true);\n  // Some sites move focus before our bridge loads; also catch click into fields.\n  document.addEventListener('pointerdown', function(ev) {\n    maybeQueryFromFocus(ev.target);\n  }, true);\n\n  document.addEventListener('submit', function(ev) {\n    var fields = findFields(ev.target);\n    if (!fields || !fields.password || !fields.password.value) return;\n    var o = originOf();\n    if (!o) return;\n    var user = (fields.username && fields.username.value) || '';\n    var pass = fields.password.value;\n    // Only signal Rust — do NOT show a local fallback banner. Rust skips\n    // identical username+password; a JS fallback ignored that and always\n    // popped \"Save password?\" after autofill + submit.\n    signal('password://go/save-offer?origin=' + encodeURIComponent(o) +\n      '&username=' + encodeURIComponent(user) +\n      '&password=' + encodeURIComponent(pass));\n  }, true);\n\n  // Right-click hit-test: compositor calls this with DIP coords, then\n  // opens an in-canvas menu from the context://hit signal.\n  window.__spatialContextHitAt = function(x, y) {\n    var el = document.elementFromPoint(x, y);\n    var link = '', image = '', pwd = false;\n    var n = el;\n    while (n && n.nodeType === 1) {\n      if (!link && n.tagName === 'A' && n.href) link = n.href;\n      if (!image && n.tagName === 'IMG' && n.src) image = n.src;\n      if (n.tagName === 'INPUT' && (n.type || '').toLowerCase() === 'password') pwd = true;\n      n = n.parentElement;\n    }\n    signal('context://hit?link=' + encodeURIComponent(link) +\n      '&image=' + encodeURIComponent(image) +\n      '&pwd=' + (pwd ? '1' : '0') +\n      '&page=' + encodeURIComponent(location.href));\n  };\n\n  // Suppress Chromium's own context menu — we draw ours on the canvas.\n  document.addEventListener('contextmenu', function(ev) {\n    ev.preventDefault();\n  }, true);\n})();\n");
    string_of(out.as_slice())
}

} // verus!
