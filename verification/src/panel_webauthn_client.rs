//! Browser script for passkey registration and sign-in ceremonies.

use vstd::prelude::*;
use vstd::string::*;

verus! {

/// Friendly messages for WebAuthn failures (shared by login and registration).
pub const PASSKEY_MESSAGE_LOGIC: &'static str = "\nfunction cpnStripUrls(text){\n  return String(text||'').replace(/https?:\\/\\/\\S+/gi,'').replace(/\\s{2,}/g,' ').replace(/\\s+([.,;:!?])/g,'$1').trim();\n}\nfunction cpnPasskeyUserMessage(err,kind){\n  const name=String((err&&err.name)||'');\n  const raw=String((err&&err.message)||err||'');\n  const lower=raw.toLowerCase();\n  if(/does not support passkeys/i.test(raw)){\n    return 'This browser does not support passkeys.';\n  }\n  if(/open this page as http:\\/\\/localhost/i.test(raw) || /not 127\\.0\\.0\\.1/i.test(raw)){\n    return cpnStripUrls(raw) || 'Open this page as http://localhost with the same port for passkeys.';\n  }\n  if(/no passkey is registered/i.test(raw) || /no passkeys registered/i.test(raw)){\n    return 'No passkey is registered for this account.';\n  }\n  if(/services are still starting|sign-in is disabled/i.test(raw)){\n    return cpnStripUrls(raw) || 'Panel services are still starting. Sign-in is temporarily disabled.';\n  }\n  if(name==='SecurityError' || /relying party|rp id|securityerror/i.test(lower)){\n    return 'Passkey could not run for this site address. Use http://localhost with the same port (127.0.0.1 is redirected automatically), or your panel hostname.';\n  }\n  if(name==='InvalidStateError' || /already registered|invalid state/i.test(lower)){\n    return kind==='login'\n      ? 'This passkey cannot be used right now. Try another device or authenticator.'\n      : 'This passkey is already registered.';\n  }\n  if(name==='NotSupportedError' || /not supported|incongruent|inconsistent/i.test(lower)){\n    return kind==='login'\n      ? 'This authenticator cannot sign in here. Try Windows Hello or a FIDO2 security key.'\n      : 'This authenticator cannot register here. Try Windows Hello or a FIDO2 security key.';\n  }\n  if(name==='NetworkError' || /network|failed to fetch/i.test(lower)){\n    return 'Could not reach the panel to finish the passkey step. Check the connection and try again.';\n  }\n  if(name==='AbortError'){\n    return kind==='login'\n      ? 'Passkey sign-in was cancelled. Try again when ready.'\n      : 'Passkey registration was cancelled. Try again when ready.';\n  }\n  if(name==='NotAllowedError'){\n    // Chrome uses the same NotAllowedError for cancel, timeout, missing UV/PIN, and no authenticator.\n    return kind==='login'\n      ? 'Passkey sign-in did not complete. Touch your security key or approve Windows Hello when prompted. If you cancelled, try again.'\n      : 'Passkey registration did not complete. Touch your security key or approve Windows Hello when prompted. A FIDO2 PIN helps on security keys. If you cancelled, try again.';\n  }\n  // Do not treat a W3C URL in the message as cancel; many WebAuthn errors include one.\n  if(/incorrect passkey|not registered|different account|unknown credential/i.test(lower)){\n    return cpnStripUrls(raw) || 'Incorrect passkey. Try again or use another sign-in method.';\n  }\n  if(/timed out|timeout/i.test(lower) && !/not allowed/i.test(lower)){\n    return kind==='login'\n      ? 'Passkey sign-in timed out. Try again and complete the prompt sooner.'\n      : 'Passkey registration timed out. Try again and complete the prompt sooner.';\n  }\n  const cleaned=cpnStripUrls(raw);\n  if(cleaned) return cleaned;\n  return kind==='login' ? 'Passkey sign-in failed. Try again.' : 'Passkey registration failed. Try again.';\n}\n";

/// Friendly messages for WebAuthn failures (shared by login and registration).
pub fn passkey_user_message_logic_js() -> (r: &'static str)
    ensures
        r@ == PASSKEY_MESSAGE_LOGIC@,
{
    PASSKEY_MESSAGE_LOGIC
}

/// Client JS for register (profile) and login ceremonies.
pub open spec fn passkey_client_script_spec() -> Seq<char> {
    "\nfunction cpnB64urlToBuf(b64url){\n  const s=String(b64url).replace(/-/g,'+').replace(/_/g,'/');\n  const pad='='.repeat((4-(s.length%4))%4);\n  const bin=atob(s+pad);\n  const out=new Uint8Array(bin.length);\n  for(let i=0;i<bin.length;i++) out[i]=bin.charCodeAt(i);\n  return out.buffer;\n}\nfunction cpnBufToB64url(buf){\n  const bytes=new Uint8Array(buf);\n  let s='';\n  for(const b of bytes) s+=String.fromCharCode(b);\n  return btoa(s).replace(/\\+/g,'-').replace(/\\//g,'_').replace(/=+$/,'');\n}\nasync function cpnDecodeCreateOptions(pk){\n  pk.challenge=cpnB64urlToBuf(pk.challenge);\n  pk.user.id=cpnB64urlToBuf(pk.user.id);\n  if(pk.excludeCredentials){\n    for(const c of pk.excludeCredentials){ c.id=cpnB64urlToBuf(c.id); }\n  }\n  return pk;\n}\nasync function cpnDecodeGetOptions(pk){\n  pk.challenge=cpnB64urlToBuf(pk.challenge);\n  if(pk.allowCredentials){\n    for(const c of pk.allowCredentials){ c.id=cpnB64urlToBuf(c.id); }\n  }\n  return pk;\n}\nfunction cpnCredToJson(cred){\n  const r={\n    id:cred.id,\n    rawId:cpnBufToB64url(cred.rawId),\n    type:cred.type,\n    response:{}\n  };\n  const resp=cred.response;\n  if(resp.clientDataJSON) r.response.clientDataJSON=cpnBufToB64url(resp.clientDataJSON);\n  if(resp.attestationObject) r.response.attestationObject=cpnBufToB64url(resp.attestationObject);\n  if(resp.authenticatorData) r.response.authenticatorData=cpnBufToB64url(resp.authenticatorData);\n  if(resp.signature) r.response.signature=cpnBufToB64url(resp.signature);\n  if(resp.userHandle) r.response.userHandle=cpnBufToB64url(resp.userHandle);\n  return r;\n}\nasync function cpnJson(url,body){\n  const res=await fetch(url,{\n    method:'POST',\n    headers:{'Content-Type':'application/json','Accept':'application/json'},\n    credentials:'same-origin',\n    body:JSON.stringify(body||{})\n  });\n  const data=await res.json().catch(()=>({}));\n  if(!res.ok) throw new Error(cpnStripUrls(data.error||('Request failed ('+res.status+')')));\n  return data;\n}\nfunction cpnShowPasskeyError(message){\n  const msg=cpnStripUrls(message)||'Passkey sign-in failed.';\n  const banner=document.getElementById('i18n-login-error');\n  if(banner){\n    banner.hidden=false;\n    banner.removeAttribute('hidden');\n    banner.setAttribute('role','alert');\n    banner.textContent=msg;\n    try{ banner.scrollIntoView({behavior:'smooth',block:'nearest'}); }catch(e){}\n  }\n  const status=document.getElementById('cpn-passkey-login-status')\n    ||document.getElementById('cpn-passkey-status');\n  if(status){\n    status.textContent=msg;\n    status.style.color='#fecaca';\n    status.style.fontWeight='650';\n  }\n  if(!banner && !status){\n    try{ window.alert(msg); }catch(e){}\n  }\n}\nfunction cpnClearPasskeyError(){\n  const banner=document.getElementById('i18n-login-error');\n  if(banner && !document.body.getAttribute('data-login-error')){\n    banner.hidden=true;\n    banner.textContent='';\n  }\n  const status=document.getElementById('cpn-passkey-login-status')\n    ||document.getElementById('cpn-passkey-status');\n  if(status){\n    status.textContent='';\n    status.style.color='';\n    status.style.fontWeight='';\n  }\n}\nfunction cpnPreferLocalhostForPasskeys(){\n  const h=String((location&&location.hostname)||'');\n  if(h==='127.0.0.1'||h==='[::1]'||h==='::1'){\n    const port=location.port?(':'+location.port):'';\n    const dest='http://localhost'+port+location.pathname+location.search+location.hash;\n    try{ location.replace(dest); }catch(e){ location.href=dest; }\n    return true;\n  }\n  return false;\n}\n"@ + PASSKEY_MESSAGE_LOGIC@ + "\nasync function cpnRegisterPasskey(){\n  const status=document.getElementById('cpn-passkey-status');\n  try{\n    cpnClearPasskeyError();\n    if(!window.PublicKeyCredential) throw new Error('This browser does not support passkeys');\n    // Browsers bind RP ID to the page host; use localhost (not 127.0.0.1) for create().\n    if(cpnPreferLocalhostForPasskeys()) return;\n    if(status) status.textContent='Starting registration...';\n    const label=(document.getElementById('cpn-passkey-label')||{}).value||'';\n    const next=cpnPasskeyRegisterNext();\n    const start=await cpnJson('/account/users/profile/passkey/register/start',{});\n    const pk=await cpnDecodeCreateOptions(start.publicKey);\n    const cred=await navigator.credentials.create({publicKey:pk});\n    if(!cred) throw new Error('Passkey registration did not complete.');\n    const finish=await cpnJson('/account/users/profile/passkey/register/finish',{\n      ceremony_id:start.ceremony_id,\n      label:label,\n      next:next,\n      credential:cpnCredToJson(cred)\n    });\n    if(status) status.textContent='Passkey registered.';\n    const go=finish.redirect||next||'';\n    if(go){ location.href=go; return; }\n    location.reload();\n  }catch(err){\n    const msg=cpnPasskeyUserMessage(err,'register');\n    cpnShowPasskeyError(msg);\n    if(status) status.textContent=msg;\n  }\n}\nfunction cpnPasskeyRegisterNext(){\n  const path=String((location&&location.pathname)||'');\n  const enroll=document.getElementById('cpn-passkey-enroll');\n  if(enroll){\n    // MFA gate may overlay Edit/View profile; return there so another passkey can be added.\n    if(path==='/account/users/modify'||path.indexOf('/account/users/modify/')===0\n      ||path==='/account/users/profile'||path.indexOf('/account/users/profile/')===0){\n      return '/account/users/modify?notice=Passkey+registered';\n    }\n    const fromEnroll=enroll.getAttribute('data-redirect');\n    if(fromEnroll) return fromEnroll;\n    return '/account/users/modify?notice=Passkey+registered';\n  }\n  const box=document.getElementById('cpn-passkey-register');\n  if(box){\n    const fromBox=box.getAttribute('data-redirect');\n    if(fromBox) return fromBox;\n  }\n  if(path.indexOf('/account/users/')===0){\n    return '/account/users/modify?notice=Passkey+registered';\n  }\n  return '';\n}\nasync function cpnLoginPasskey(){\n  const status=document.getElementById('cpn-passkey-login-status');\n  try{\n    cpnClearPasskeyError();\n    if(document.body && document.body.getAttribute('data-services-ready')==='0'){\n      throw new Error('Panel services are still starting. Sign-in is disabled until Web server and MariaDB are running.');\n    }\n    if(!window.PublicKeyCredential) throw new Error('This browser does not support passkeys');\n    if(cpnPreferLocalhostForPasskeys()) return;\n    if(status){ status.textContent='Waiting for authenticator...'; status.style.color=''; status.style.fontWeight=''; }\n    const start=await cpnJson('/login/passkey/start',{});\n    const pk=await cpnDecodeGetOptions(start.publicKey);\n    const cred=await navigator.credentials.get({publicKey:pk});\n    if(!cred) throw new Error('Passkey sign-in did not complete.');\n    const finish=await cpnJson('/login/passkey/finish',{\n      ceremony_id:start.ceremony_id,\n      credential:cpnCredToJson(cred),\n      next:(document.body&&document.body.getAttribute('data-login-next'))||new URLSearchParams(location.search).get('next')||''\n    });\n    location.href=finish.redirect||'/dashboard';\n  }catch(err){\n    cpnShowPasskeyError(cpnPasskeyUserMessage(err,'login'));\n  }\n}\nasync function cpnMfaPasskey(){\n  const status=document.getElementById('cpn-passkey-login-status');\n  try{\n    cpnClearPasskeyError();\n    if(!window.PublicKeyCredential) throw new Error('This browser does not support passkeys');\n    if(cpnPreferLocalhostForPasskeys()) return;\n    if(status){ status.textContent='Waiting for authenticator...'; status.style.color=''; status.style.fontWeight=''; }\n    const start=await cpnJson('/login/2fa/passkey/start',{});\n    const pk=await cpnDecodeGetOptions(start.publicKey);\n    const cred=await navigator.credentials.get({publicKey:pk});\n    if(!cred) throw new Error('Passkey sign-in did not complete.');\n    const finish=await cpnJson('/login/2fa/passkey/finish',{\n      ceremony_id:start.ceremony_id,\n      credential:cpnCredToJson(cred),\n      next:(document.body&&document.body.getAttribute('data-login-next'))||new URLSearchParams(location.search).get('next')||''\n    });\n    location.href=finish.redirect||'/dashboard';\n  }catch(err){\n    cpnShowPasskeyError(cpnPasskeyUserMessage(err,'login'));\n  }\n}\n"@
}

pub fn passkey_client_script() -> (r: String)
    ensures
        r@ == passkey_client_script_spec(),
{
    let mut out = "\nfunction cpnB64urlToBuf(b64url){\n  const s=String(b64url).replace(/-/g,'+').replace(/_/g,'/');\n  const pad='='.repeat((4-(s.length%4))%4);\n  const bin=atob(s+pad);\n  const out=new Uint8Array(bin.length);\n  for(let i=0;i<bin.length;i++) out[i]=bin.charCodeAt(i);\n  return out.buffer;\n}\nfunction cpnBufToB64url(buf){\n  const bytes=new Uint8Array(buf);\n  let s='';\n  for(const b of bytes) s+=String.fromCharCode(b);\n  return btoa(s).replace(/\\+/g,'-').replace(/\\//g,'_').replace(/=+$/,'');\n}\nasync function cpnDecodeCreateOptions(pk){\n  pk.challenge=cpnB64urlToBuf(pk.challenge);\n  pk.user.id=cpnB64urlToBuf(pk.user.id);\n  if(pk.excludeCredentials){\n    for(const c of pk.excludeCredentials){ c.id=cpnB64urlToBuf(c.id); }\n  }\n  return pk;\n}\nasync function cpnDecodeGetOptions(pk){\n  pk.challenge=cpnB64urlToBuf(pk.challenge);\n  if(pk.allowCredentials){\n    for(const c of pk.allowCredentials){ c.id=cpnB64urlToBuf(c.id); }\n  }\n  return pk;\n}\nfunction cpnCredToJson(cred){\n  const r={\n    id:cred.id,\n    rawId:cpnBufToB64url(cred.rawId),\n    type:cred.type,\n    response:{}\n  };\n  const resp=cred.response;\n  if(resp.clientDataJSON) r.response.clientDataJSON=cpnBufToB64url(resp.clientDataJSON);\n  if(resp.attestationObject) r.response.attestationObject=cpnBufToB64url(resp.attestationObject);\n  if(resp.authenticatorData) r.response.authenticatorData=cpnBufToB64url(resp.authenticatorData);\n  if(resp.signature) r.response.signature=cpnBufToB64url(resp.signature);\n  if(resp.userHandle) r.response.userHandle=cpnBufToB64url(resp.userHandle);\n  return r;\n}\nasync function cpnJson(url,body){\n  const res=await fetch(url,{\n    method:'POST',\n    headers:{'Content-Type':'application/json','Accept':'application/json'},\n    credentials:'same-origin',\n    body:JSON.stringify(body||{})\n  });\n  const data=await res.json().catch(()=>({}));\n  if(!res.ok) throw new Error(cpnStripUrls(data.error||('Request failed ('+res.status+')')));\n  return data;\n}\nfunction cpnShowPasskeyError(message){\n  const msg=cpnStripUrls(message)||'Passkey sign-in failed.';\n  const banner=document.getElementById('i18n-login-error');\n  if(banner){\n    banner.hidden=false;\n    banner.removeAttribute('hidden');\n    banner.setAttribute('role','alert');\n    banner.textContent=msg;\n    try{ banner.scrollIntoView({behavior:'smooth',block:'nearest'}); }catch(e){}\n  }\n  const status=document.getElementById('cpn-passkey-login-status')\n    ||document.getElementById('cpn-passkey-status');\n  if(status){\n    status.textContent=msg;\n    status.style.color='#fecaca';\n    status.style.fontWeight='650';\n  }\n  if(!banner && !status){\n    try{ window.alert(msg); }catch(e){}\n  }\n}\nfunction cpnClearPasskeyError(){\n  const banner=document.getElementById('i18n-login-error');\n  if(banner && !document.body.getAttribute('data-login-error')){\n    banner.hidden=true;\n    banner.textContent='';\n  }\n  const status=document.getElementById('cpn-passkey-login-status')\n    ||document.getElementById('cpn-passkey-status');\n  if(status){\n    status.textContent='';\n    status.style.color='';\n    status.style.fontWeight='';\n  }\n}\nfunction cpnPreferLocalhostForPasskeys(){\n  const h=String((location&&location.hostname)||'');\n  if(h==='127.0.0.1'||h==='[::1]'||h==='::1'){\n    const port=location.port?(':'+location.port):'';\n    const dest='http://localhost'+port+location.pathname+location.search+location.hash;\n    try{ location.replace(dest); }catch(e){ location.href=dest; }\n    return true;\n  }\n  return false;\n}\n".to_owned();
    out.append(PASSKEY_MESSAGE_LOGIC);
    out.append("\nasync function cpnRegisterPasskey(){\n  const status=document.getElementById('cpn-passkey-status');\n  try{\n    cpnClearPasskeyError();\n    if(!window.PublicKeyCredential) throw new Error('This browser does not support passkeys');\n    // Browsers bind RP ID to the page host; use localhost (not 127.0.0.1) for create().\n    if(cpnPreferLocalhostForPasskeys()) return;\n    if(status) status.textContent='Starting registration...';\n    const label=(document.getElementById('cpn-passkey-label')||{}).value||'';\n    const next=cpnPasskeyRegisterNext();\n    const start=await cpnJson('/account/users/profile/passkey/register/start',{});\n    const pk=await cpnDecodeCreateOptions(start.publicKey);\n    const cred=await navigator.credentials.create({publicKey:pk});\n    if(!cred) throw new Error('Passkey registration did not complete.');\n    const finish=await cpnJson('/account/users/profile/passkey/register/finish',{\n      ceremony_id:start.ceremony_id,\n      label:label,\n      next:next,\n      credential:cpnCredToJson(cred)\n    });\n    if(status) status.textContent='Passkey registered.';\n    const go=finish.redirect||next||'';\n    if(go){ location.href=go; return; }\n    location.reload();\n  }catch(err){\n    const msg=cpnPasskeyUserMessage(err,'register');\n    cpnShowPasskeyError(msg);\n    if(status) status.textContent=msg;\n  }\n}\nfunction cpnPasskeyRegisterNext(){\n  const path=String((location&&location.pathname)||'');\n  const enroll=document.getElementById('cpn-passkey-enroll');\n  if(enroll){\n    // MFA gate may overlay Edit/View profile; return there so another passkey can be added.\n    if(path==='/account/users/modify'||path.indexOf('/account/users/modify/')===0\n      ||path==='/account/users/profile'||path.indexOf('/account/users/profile/')===0){\n      return '/account/users/modify?notice=Passkey+registered';\n    }\n    const fromEnroll=enroll.getAttribute('data-redirect');\n    if(fromEnroll) return fromEnroll;\n    return '/account/users/modify?notice=Passkey+registered';\n  }\n  const box=document.getElementById('cpn-passkey-register');\n  if(box){\n    const fromBox=box.getAttribute('data-redirect');\n    if(fromBox) return fromBox;\n  }\n  if(path.indexOf('/account/users/')===0){\n    return '/account/users/modify?notice=Passkey+registered';\n  }\n  return '';\n}\nasync function cpnLoginPasskey(){\n  const status=document.getElementById('cpn-passkey-login-status');\n  try{\n    cpnClearPasskeyError();\n    if(document.body && document.body.getAttribute('data-services-ready')==='0'){\n      throw new Error('Panel services are still starting. Sign-in is disabled until Web server and MariaDB are running.');\n    }\n    if(!window.PublicKeyCredential) throw new Error('This browser does not support passkeys');\n    if(cpnPreferLocalhostForPasskeys()) return;\n    if(status){ status.textContent='Waiting for authenticator...'; status.style.color=''; status.style.fontWeight=''; }\n    const start=await cpnJson('/login/passkey/start',{});\n    const pk=await cpnDecodeGetOptions(start.publicKey);\n    const cred=await navigator.credentials.get({publicKey:pk});\n    if(!cred) throw new Error('Passkey sign-in did not complete.');\n    const finish=await cpnJson('/login/passkey/finish',{\n      ceremony_id:start.ceremony_id,\n      credential:cpnCredToJson(cred),\n      next:(document.body&&document.body.getAttribute('data-login-next'))||new URLSearchParams(location.search).get('next')||''\n    });\n    location.href=finish.redirect||'/dashboard';\n  }catch(err){\n    cpnShowPasskeyError(cpnPasskeyUserMessage(err,'login'));\n  }\n}\nasync function cpnMfaPasskey(){\n  const status=document.getElementById('cpn-passkey-login-status');\n  try{\n    cpnClearPasskeyError();\n    if(!window.PublicKeyCredential) throw new Error('This browser does not support passkeys');\n    if(cpnPreferLocalhostForPasskeys()) return;\n    if(status){ status.textContent='Waiting for authenticator...'; status.style.color=''; status.style.fontWeight=''; }\n    const start=await cpnJson('/login/2fa/passkey/start',{});\n    const pk=await cpnDecodeGetOptions(start.publicKey);\n    const cred=await navigator.credentials.get({publicKey:pk});\n    if(!cred) throw new Error('Passkey sign-in did not complete.');\n    const finish=await cpnJson('/login/2fa/passkey/finish',{\n      ceremony_id:start.ceremony_id,\n      credential:cpnCredToJson(cred),\n      next:(document.body&&document.body.getAttribute('data-login-next'))||new URLSearchParams(location.search).get('next')||''\n    });\n    location.href=finish.redirect||'/dashboard';\n  }catch(err){\n    cpnShowPasskeyError(cpnPasskeyUserMessage(err,'login'));\n  }\n}\n");
    proof {
        assert(out@ =~= passkey_client_script_spec());
    }
    out
}

} // verus!
